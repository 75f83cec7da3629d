use vstd::prelude::*;

use crate::mpc::errors::{fail, Error, ErrorCode};
use crate::mpc::state::{Sale, SaleStatus};
use crate::program_error::ProgramError;
use crate::pubkey::Pubkey;

verus! {

/// The accounts of switching to refund mode: the sale and the signing authority.
pub struct RefundSale {
    pub sale: Sale,
    pub authority: Pubkey,
}

/// Statuses from which the authority may switch a sale to refunds.
pub open spec fn refundable(status: SaleStatus) -> bool {
    ||| status == SaleStatus::Initialized
    ||| status == SaleStatus::Active
    ||| status == SaleStatus::Ready
    ||| status == SaleStatus::Settling
    ||| status == SaleStatus::Settled
}

/// Why refund mode cannot be entered, checked in this order; `None` when it can.
pub open spec fn refund_sale_failure(sale: Sale, authority: Pubkey) -> Option<Error> {
    if sale.authority@ != authority@ {
        Some(ProgramError::ConstraintHasOne)
    } else if !refundable(sale.status) {
        Some(fail(ErrorCode::InvalidSaleStatus))
    } else {
        None
    }
}

/// The authority switches the sale to full refunds; users then claim their USDC back.
pub fn handler_refund_sale(ctx: &mut RefundSale) -> (r: Result<(), Error>)
    ensures
        final(ctx).authority == old(ctx).authority,
        match r {
            Ok(()) => refund_sale_failure(old(ctx).sale, old(ctx).authority) is None && final(ctx).sale == (Sale { status: SaleStatus::Refunding, claims_enabled: true, ..old(ctx).sale }),
            Err(e) => refund_sale_failure(old(ctx).sale, old(ctx).authority) == Some(e) && final(ctx).sale == old(ctx).sale,
        },
{
    if !ctx.sale.authority.same_as(&ctx.authority) {
        return Err(ProgramError::ConstraintHasOne);
    }
    let s = ctx.sale.status;
    if !(s == SaleStatus::Initialized || s == SaleStatus::Active || s == SaleStatus::Ready || s
        == SaleStatus::Settling || s == SaleStatus::Settled) {
        return Err(ProgramError::Custom(ErrorCode::InvalidSaleStatus));
    }
    ctx.sale.status = SaleStatus::Refunding;
    ctx.sale.claims_enabled = true;
    Ok(())
}

} // verus!
