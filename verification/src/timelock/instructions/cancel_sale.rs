use vstd::prelude::*;

use crate::program_error::ProgramError;
use crate::pubkey::Pubkey;
use crate::timelock::errors::{fail, Error, ErrorCode};
use crate::timelock::state::{Sale, SaleStatus};

verus! {

/// The accounts of a cancellation: the sale and the signing authority.
pub struct CancelSale {
    pub sale: Sale,
    pub authority: Pubkey,
}

/// Why the sale cannot be cancelled, checked in this order; `None` when it can.
pub open spec fn cancel_sale_failure(sale: Sale, authority: Pubkey) -> Option<Error> {
    if sale.authority@ != authority@ {
        Some(ProgramError::ConstraintHasOne)
    } else if sale.status == SaleStatus::Settled || sale.status == SaleStatus::Finalized {
        Some(fail(ErrorCode::CannotCancelSettledSale))
    } else if (sale.status == SaleStatus::Proposed || sale.status == SaleStatus::Verifying)
        && sale.total_committed >= sale.raise_min {
        Some(fail(ErrorCode::CannotCancelDuringVerification))
    } else {
        None
    }
}

/// The authority cancels a sale that is not settled; during verification only when it is
/// undersubscribed.
pub fn handler_cancel_sale(ctx: &mut CancelSale) -> (r: Result<(), Error>)
    ensures
        final(ctx).authority == old(ctx).authority,
        match r {
            Ok(()) => cancel_sale_failure(old(ctx).sale, old(ctx).authority) is None && final(ctx).sale == (Sale { status: SaleStatus::Cancelled, ..old(ctx).sale }),
            Err(e) => cancel_sale_failure(old(ctx).sale, old(ctx).authority) == Some(e) && final(ctx).sale == old(ctx).sale,
        },
{
    if !ctx.sale.authority.same_as(&ctx.authority) {
        return Err(ProgramError::ConstraintHasOne);
    }
    if ctx.sale.status == SaleStatus::Settled || ctx.sale.status == SaleStatus::Finalized {
        return Err(ProgramError::Custom(ErrorCode::CannotCancelSettledSale));
    }
    if ctx.sale.status == SaleStatus::Proposed || ctx.sale.status == SaleStatus::Verifying {
        let is_undersubscribed = ctx.sale.total_committed < ctx.sale.raise_min;
        if !is_undersubscribed {
            return Err(ProgramError::Custom(ErrorCode::CannotCancelDuringVerification));
        }
    }
    ctx.sale.status = SaleStatus::Cancelled;
    Ok(())
}

/// A settled or finalized sale cannot be cancelled.
pub proof fn law_settled_sale_is_binding(sale: Sale, authority: Pubkey)
    requires
        sale.status == SaleStatus::Settled || sale.status == SaleStatus::Finalized,
    ensures
        cancel_sale_failure(sale, authority) is Some,
{
}

} // verus!
