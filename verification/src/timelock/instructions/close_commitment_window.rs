use vstd::prelude::*;

use crate::program_error::ProgramError;
use crate::timelock::errors::{fail, Error, ErrorCode};
use crate::timelock::state::{Sale, SaleStatus};

verus! {

/// The accounts of closing the commitment window: the sale. Anyone may close it.
pub struct CloseCommitmentWindow {
    pub sale: Sale,
}

/// Why the window cannot be closed at `now`; `None` when it can.
pub open spec fn close_commitment_window_failure(sale: Sale, now: i64) -> Option<Error> {
    if sale.status != SaleStatus::Active {
        Some(fail(ErrorCode::InvalidSaleStatus))
    } else if now <= sale.commitment_end {
        Some(fail(ErrorCode::CommitmentWindowNotClosed))
    } else {
        None
    }
}

/// Once the commitment window has passed, the sale moves on to revealing bids.
pub fn handler_close_commitment_window(ctx: &mut CloseCommitmentWindow, now: i64) -> (r: Result<
    (),
    Error,
>)
    ensures
        match r {
            Ok(()) => close_commitment_window_failure(old(ctx).sale, now) is None && final(ctx).sale
                == (Sale { status: SaleStatus::Revealing, ..old(ctx).sale }),
            Err(e) => close_commitment_window_failure(old(ctx).sale, now) == Some(e) && final(ctx).sale == old(ctx).sale,
        },
{
    if ctx.sale.status != SaleStatus::Active {
        return Err(ProgramError::Custom(ErrorCode::InvalidSaleStatus));
    }
    if now <= ctx.sale.commitment_end {
        return Err(ProgramError::Custom(ErrorCode::CommitmentWindowNotClosed));
    }
    ctx.sale.status = SaleStatus::Revealing;
    Ok(())
}

} // verus!
