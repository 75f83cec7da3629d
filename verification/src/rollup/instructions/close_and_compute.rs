use vstd::prelude::*;

use crate::program_error::ProgramError;
use crate::pubkey::Pubkey;
use crate::rollup::errors::{fail, Error, ErrorCode};
use crate::rollup::events::SettlementComputed;
use crate::rollup::state::{Sale, SaleStatus};

verus! {

/// The accounts of setting the settlement terms: the sale and its address. Anyone may call.
pub struct CloseAndCompute {
    pub sale: Sale,
    pub sale_key: Pubkey,
}

/// Why the terms are refused, checked in this order; `None` when they are set.
pub open spec fn close_and_compute_failure(
    sale: Sale,
    now: i64,
    clearing_fdv: u64,
    fill_rate: u64,
    marginal_user: Option<Pubkey>,
    marginal_allocation: Option<u64>,
) -> Option<Error> {
    if sale.status != SaleStatus::Active && sale.status != SaleStatus::Delegated {
        Some(fail(ErrorCode::InvalidSaleStatus))
    } else if now <= sale.commitment_end {
        Some(fail(ErrorCode::CommitmentWindowNotEnded))
    } else if clearing_fdv < sale.fdv_min || clearing_fdv > sale.fdv_max {
        Some(fail(ErrorCode::InvalidClearingFdv))
    } else if fill_rate < 1 || fill_rate > 10000 {
        Some(fail(ErrorCode::InvalidFillRate))
    } else if marginal_user is Some && marginal_allocation is None {
        Some(fail(ErrorCode::InvalidMarginalAllocation))
    } else {
        None
    }
}

/// The sale with the settlement terms set and the allocation tally reset.
pub open spec fn computed_sale(
    sale: Sale,
    clearing_fdv: u64,
    fill_rate: u64,
    marginal_user: Option<Pubkey>,
    marginal_allocation: Option<u64>,
) -> Sale {
    Sale {
        clearing_fdv: Some(clearing_fdv),
        fill_rate: Some(fill_rate),
        marginal_user: marginal_user,
        marginal_allocation: marginal_allocation,
        marginal_user_verified: false,
        verification_count: 0,
        running_sum: 0,
        settlement_computed: true,
        status: SaleStatus::Computing,
        ..sale
    }
}

/// After the commitment window, sets the clearing FDV, the fill rate (in basis points) and
/// the optional marginal bidder, and starts allocating.
pub fn handler_close_and_compute(
    ctx: &mut CloseAndCompute,
    now: i64,
    clearing_fdv: u64,
    fill_rate: u64,
    marginal_user: Option<Pubkey>,
    marginal_allocation: Option<u64>,
) -> (r: Result<SettlementComputed, Error>)
    ensures
        final(ctx).sale_key == old(ctx).sale_key,
        match r {
            Ok(event) => close_and_compute_failure(
                old(ctx).sale,
                now,
                clearing_fdv,
                fill_rate,
                marginal_user,
                marginal_allocation,
            ) is None && final(ctx).sale == computed_sale(
                old(ctx).sale,
                clearing_fdv,
                fill_rate,
                marginal_user,
                marginal_allocation,
            ) && event == (SettlementComputed { sale: old(ctx).sale_key, clearing_fdv, fill_rate }),
            Err(e) => close_and_compute_failure(
                old(ctx).sale,
                now,
                clearing_fdv,
                fill_rate,
                marginal_user,
                marginal_allocation,
            ) == Some(e) && final(ctx).sale == old(ctx).sale,
        },
{
    if ctx.sale.status != SaleStatus::Active && ctx.sale.status != SaleStatus::Delegated {
        return Err(ProgramError::Custom(ErrorCode::InvalidSaleStatus));
    }
    if now <= ctx.sale.commitment_end {
        return Err(ProgramError::Custom(ErrorCode::CommitmentWindowNotEnded));
    }
    if clearing_fdv < ctx.sale.fdv_min || clearing_fdv > ctx.sale.fdv_max {
        return Err(ProgramError::Custom(ErrorCode::InvalidClearingFdv));
    }
    if fill_rate < 1 || fill_rate > 10000 {
        return Err(ProgramError::Custom(ErrorCode::InvalidFillRate));
    }
    if marginal_user.is_some() && marginal_allocation.is_none() {
        return Err(ProgramError::Custom(ErrorCode::InvalidMarginalAllocation));
    }
    ctx.sale.clearing_fdv = Some(clearing_fdv);
    ctx.sale.fill_rate = Some(fill_rate);
    ctx.sale.marginal_user = marginal_user;
    ctx.sale.marginal_allocation = marginal_allocation;
    ctx.sale.marginal_user_verified = false;
    ctx.sale.verification_count = 0;
    ctx.sale.running_sum = 0;
    ctx.sale.settlement_computed = true;
    ctx.sale.status = SaleStatus::Computing;
    Ok(SettlementComputed { sale: ctx.sale_key, clearing_fdv, fill_rate })
}

} // verus!
