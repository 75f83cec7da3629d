use vstd::prelude::*;

use crate::program_error::ProgramError;
use crate::pubkey::Pubkey;
use crate::rollup::errors::{fail, Error, ErrorCode};
use crate::rollup::events::RefundModeEnabled;
use crate::rollup::state::{Sale, SaleStatus};

verus! {

/// The accounts of switching to refund mode: the sale and its address, and the signing
/// authority.
pub struct RefundSale {
    pub sale: Sale,
    pub sale_key: Pubkey,
    pub authority: Pubkey,
}

/// Statuses from which the authority may switch a sale to refunds.
pub open spec fn refundable(status: SaleStatus) -> bool {
    ||| status == SaleStatus::Initialized
    ||| status == SaleStatus::Active
    ||| status == SaleStatus::Delegated
    ||| status == SaleStatus::Computing
    ||| status == SaleStatus::Allocated
}

/// Why refund mode cannot be entered, checked in this order; `None` when it can.
pub open spec fn refund_sale_failure(sale: Sale, authority: Pubkey) -> Option<Error> {
    if sale.authority@ != authority@ {
        Some(ProgramError::ConstraintHasOne)
    } else if !refundable(sale.status) {
        Some(fail(ErrorCode::InvalidSaleStatus))
    } else {
        None
    }
}

/// The authority switches the sale to full refunds; users then claim their USDC back.
pub fn handler_refund_sale(ctx: &mut RefundSale) -> (r: Result<RefundModeEnabled, Error>)
    ensures
        final(ctx).authority == old(ctx).authority,
        final(ctx).sale_key == old(ctx).sale_key,
        match r {
            Ok(event) => refund_sale_failure(old(ctx).sale, old(ctx).authority) is None && final(ctx).sale == (Sale { status: SaleStatus::Refunding, claims_enabled: true, ..old(ctx).sale })
                && event == (RefundModeEnabled { sale: old(ctx).sale_key }),
            Err(e) => refund_sale_failure(old(ctx).sale, old(ctx).authority) == Some(e) && final(ctx).sale == old(ctx).sale,
        },
{
    if !ctx.sale.authority.same_as(&ctx.authority) {
        return Err(ProgramError::ConstraintHasOne);
    }
    let s = ctx.sale.status;
    if !(s == SaleStatus::Initialized || s == SaleStatus::Active || s == SaleStatus::Delegated || s
        == SaleStatus::Computing || s == SaleStatus::Allocated) {
        return Err(ProgramError::Custom(ErrorCode::InvalidSaleStatus));
    }
    ctx.sale.status = SaleStatus::Refunding;
    ctx.sale.claims_enabled = true;
    Ok(RefundModeEnabled { sale: ctx.sale_key })
}

/// A sale whose bids have left the rollup settled cannot be switched to refunds.
pub proof fn law_settled_sale_cannot_be_refunded(sale: Sale, authority: Pubkey)
    requires
        sale.status == SaleStatus::Settled || sale.status == SaleStatus::Finalized,
    ensures
        refund_sale_failure(sale, authority) is Some,
{
}

} // verus!
