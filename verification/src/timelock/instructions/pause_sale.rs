use vstd::prelude::*;

use crate::program_error::ProgramError;
use crate::pubkey::Pubkey;
use crate::timelock::errors::{fail, Error, ErrorCode};
use crate::timelock::state::{Sale, SaleStatus};

verus! {

/// The accounts of pausing a sale: the sale and the signing authority.
pub struct PauseSale {
    pub sale: Sale,
    pub authority: Pubkey,
}

/// The accounts of resuming a sale: the sale and the signing authority.
pub struct UnpauseSale {
    pub sale: Sale,
    pub authority: Pubkey,
}

/// Statuses in which a sale can be paused or resumed.
pub open spec fn pausable(status: SaleStatus) -> bool {
    status == SaleStatus::Initialized || status == SaleStatus::Active
}

/// Why the sale cannot be paused; `None` when it can.
pub open spec fn pause_sale_failure(sale: Sale, authority: Pubkey) -> Option<Error> {
    if sale.authority@ != authority@ {
        Some(ProgramError::ConstraintHasOne)
    } else if !pausable(sale.status) {
        Some(fail(ErrorCode::InvalidSaleStatus))
    } else if sale.is_paused {
        Some(fail(ErrorCode::AlreadyProcessed))
    } else {
        None
    }
}

/// Why the sale cannot be resumed; `None` when it can.
pub open spec fn unpause_sale_failure(sale: Sale, authority: Pubkey) -> Option<Error> {
    if sale.authority@ != authority@ {
        Some(ProgramError::ConstraintHasOne)
    } else if !pausable(sale.status) {
        Some(fail(ErrorCode::InvalidSaleStatus))
    } else if !sale.is_paused {
        Some(fail(ErrorCode::InvalidSaleStatus))
    } else {
        None
    }
}

/// The authority pauses commitments.
pub fn handler_pause_sale(ctx: &mut PauseSale) -> (r: Result<(), Error>)
    ensures
        final(ctx).authority == old(ctx).authority,
        match r {
            Ok(()) => pause_sale_failure(old(ctx).sale, old(ctx).authority) is None && final(ctx).sale == (Sale { is_paused: true, ..old(ctx).sale }),
            Err(e) => pause_sale_failure(old(ctx).sale, old(ctx).authority) == Some(e) && final(ctx).sale == old(ctx).sale,
        },
{
    if !ctx.sale.authority.same_as(&ctx.authority) {
        return Err(ProgramError::ConstraintHasOne);
    }
    if !(ctx.sale.status == SaleStatus::Initialized || ctx.sale.status == SaleStatus::Active) {
        return Err(ProgramError::Custom(ErrorCode::InvalidSaleStatus));
    }
    if ctx.sale.is_paused {
        return Err(ProgramError::Custom(ErrorCode::AlreadyProcessed));
    }
    ctx.sale.is_paused = true;
    Ok(())
}

/// The authority resumes commitments.
pub fn handler_unpause_sale(ctx: &mut UnpauseSale) -> (r: Result<(), Error>)
    ensures
        final(ctx).authority == old(ctx).authority,
        match r {
            Ok(()) => unpause_sale_failure(old(ctx).sale, old(ctx).authority) is None && final(ctx).sale == (Sale { is_paused: false, ..old(ctx).sale }),
            Err(e) => unpause_sale_failure(old(ctx).sale, old(ctx).authority) == Some(e) && final(ctx).sale == old(ctx).sale,
        },
{
    if !ctx.sale.authority.same_as(&ctx.authority) {
        return Err(ProgramError::ConstraintHasOne);
    }
    if !(ctx.sale.status == SaleStatus::Initialized || ctx.sale.status == SaleStatus::Active) {
        return Err(ProgramError::Custom(ErrorCode::InvalidSaleStatus));
    }
    if !ctx.sale.is_paused {
        return Err(ProgramError::Custom(ErrorCode::InvalidSaleStatus));
    }
    ctx.sale.is_paused = false;
    Ok(())
}

/// Pausing a sale and then resuming it gives back the sale as it was.
pub proof fn law_pause_then_unpause_restores(sale: Sale, authority: Pubkey)
    requires
        pause_sale_failure(sale, authority) is None,
    ensures
        unpause_sale_failure(Sale { is_paused: true, ..sale }, authority) is None,
        (Sale { is_paused: false, ..Sale { is_paused: true, ..sale } }) == sale,
{
}

} // verus!
