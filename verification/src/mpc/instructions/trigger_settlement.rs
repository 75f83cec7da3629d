use vstd::prelude::*;

use crate::mpc::circuits::SettleInputs;
use crate::mpc::errors::{fail, Error, ErrorCode};
use crate::mpc::state::{Sale, SaleStatus};
use crate::program_error::ProgramError;

verus! {

/// The accounts of triggering the settlement: the sale.
pub struct TriggerSettlement {
    pub sale: Sale,
}

/// The plaintext inputs of a sale's settlement.
pub open spec fn settle_inputs(sale: Sale) -> SettleInputs {
    SettleInputs {
        fdv_min: sale.fdv_min,
        fdv_max: sale.fdv_max,
        token_supply: sale.token_supply,
        supply_pct_bps: sale.supply_percentage as u64,
        bucket_count: sale.bucket_count as u64,
    }
}

/// Starts the settlement of a sale that is ready: the result is the plaintext inputs of the
/// computation, and the sale is settling.
pub fn handler_trigger_settlement(ctx: &mut TriggerSettlement) -> (r: Result<SettleInputs, Error>)
    ensures
        match r {
            Ok(inputs) => old(ctx).sale.status == SaleStatus::Ready && inputs == settle_inputs(
                old(ctx).sale,
            ) && final(ctx).sale == (Sale { status: SaleStatus::Settling, ..old(ctx).sale }),
            Err(e) => old(ctx).sale.status != SaleStatus::Ready && e == fail(
                ErrorCode::InvalidSaleStatus,
            ) && final(ctx).sale == old(ctx).sale,
        },
{
    if ctx.sale.status != SaleStatus::Ready {
        return Err(ProgramError::Custom(ErrorCode::InvalidSaleStatus));
    }
    let inputs = SettleInputs {
        fdv_min: ctx.sale.fdv_min,
        fdv_max: ctx.sale.fdv_max,
        token_supply: ctx.sale.token_supply,
        supply_pct_bps: ctx.sale.supply_percentage as u64,
        bucket_count: ctx.sale.bucket_count as u64,
    };
    ctx.sale.status = SaleStatus::Settling;
    Ok(inputs)
}

} // verus!
