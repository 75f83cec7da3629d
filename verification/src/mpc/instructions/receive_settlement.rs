use vstd::prelude::*;

use crate::mpc::errors::{fail, Error, ErrorCode};
use crate::mpc::state::{Sale, SaleStatus};
use crate::program_error::ProgramError;

verus! {

/// The accounts of receiving the settlement: the sale.
pub struct SettleAuctionCallback {
    pub sale: Sale,
}

/// The sale with the settlement recorded: clearing FDV, marginal fill rate, clearing bucket
/// bounds and USDC raised; the bid count is not kept.
pub open spec fn settled_sale(sale: Sale, settlement: (u64, u64, u64, u64, u64, u64)) -> Sale {
    Sale {
        clearing_fdv: Some(settlement.0),
        marginal_fill_rate: Some(settlement.1),
        clearing_bucket_low: Some(settlement.2),
        clearing_bucket_high: Some(settlement.3),
        total_raised: Some(settlement.4),
        arcium_settled: true,
        status: SaleStatus::Settled,
        settlement_nonce: if sale.settlement_nonce == u64::MAX {
            1
        } else {
            (sale.settlement_nonce + 1) as u64
        },
        ..sale
    }
}

/// Records the settlement that the cluster computed for a settling sale.
pub fn settle_auction_callback(
    ctx: &mut SettleAuctionCallback,
    settlement: (u64, u64, u64, u64, u64, u64),
) -> (r: Result<(), Error>)
    ensures
        match r {
            Ok(()) => old(ctx).sale.status == SaleStatus::Settling && final(ctx).sale == settled_sale(
                old(ctx).sale,
                settlement,
            ),
            Err(e) => old(ctx).sale.status != SaleStatus::Settling && e == fail(
                ErrorCode::InvalidSaleStatus,
            ) && final(ctx).sale == old(ctx).sale,
        },
{
    if ctx.sale.status != SaleStatus::Settling {
        return Err(ProgramError::Custom(ErrorCode::InvalidSaleStatus));
    }
    ctx.sale.clearing_fdv = Some(settlement.0);
    ctx.sale.marginal_fill_rate = Some(settlement.1);
    ctx.sale.clearing_bucket_low = Some(settlement.2);
    ctx.sale.clearing_bucket_high = Some(settlement.3);
    ctx.sale.total_raised = Some(settlement.4);
    ctx.sale.arcium_settled = true;
    ctx.sale.status = SaleStatus::Settled;
    ctx.sale.settlement_nonce = match ctx.sale.settlement_nonce.checked_add(1) {
        Some(n) => n,
        None => 1,
    };
    Ok(())
}

} // verus!
