use vstd::prelude::*;

use crate::program_error::ProgramError;
use crate::pubkey::Pubkey;
use crate::timelock::errors::{fail, Error, ErrorCode};
use crate::timelock::state::{Sale, SaleStatus};

verus! {

/// The accounts of finalizing a settlement: the sale, and the token vault with its balance.
pub struct FinalizeSettlement {
    pub sale: Sale,
    pub token_vault: Pubkey,
    pub token_vault_amount: u64,
}

/// Tokens owed for the verified raise at the clearing FDV:
/// `running_sum * token_supply / clearing_fdv`.
pub open spec fn tokens_owed(sale: Sale) -> int {
    (sale.running_sum as int * sale.token_supply as int) / (sale.clearing_fdv->Some_0 as int)
}

/// Why a settlement cannot be finalized, checked in this order; `None` when it can.
pub open spec fn finalize_settlement_failure(ctx: FinalizeSettlement) -> Option<Error> {
    let sale = ctx.sale;
    if sale.status != SaleStatus::Verifying {
        Some(fail(ErrorCode::InvalidSaleStatus))
    } else if ctx.token_vault@ != sale.token_vault@ {
        Some(fail(ErrorCode::InvalidParameters))
    } else if sale.verification_count != sale.total_users {
        Some(fail(ErrorCode::VerificationIncomplete))
    } else if sale.marginal_user is Some && !sale.marginal_user_verified {
        Some(fail(ErrorCode::VerificationIncomplete))
    } else if sale.running_sum > sale.raise_max {
        Some(fail(ErrorCode::RunningSumExceedsMax))
    } else if sale.running_sum < sale.raise_min {
        Some(fail(ErrorCode::RunningSumBelowMin))
    } else if sale.running_sum == 0 {
        Some(fail(ErrorCode::InsufficientDemand))
    } else if sale.clearing_fdv is None {
        Some(fail(ErrorCode::InvalidSaleStatus))
    } else if sale.clearing_fdv->Some_0 == 0 {
        Some(fail(ErrorCode::DivisionByZero))
    } else if tokens_owed(sale) > u64::MAX {
        Some(fail(ErrorCode::ArithmeticOverflow))
    } else if ctx.token_vault_amount < tokens_owed(sale) {
        Some(fail(ErrorCode::InsufficientTokens))
    } else {
        None
    }
}

/// Settles the sale once every bid has been verified, the raise lies within its bounds, and
/// the vault holds the tokens owed.
pub fn handler_finalize_settlement(ctx: &mut FinalizeSettlement) -> (r: Result<(), Error>)
    ensures
        final(ctx).token_vault == old(ctx).token_vault,
        final(ctx).token_vault_amount == old(ctx).token_vault_amount,
        match r {
            Ok(()) => finalize_settlement_failure(*old(ctx)) is None && final(ctx).sale == (Sale {
                total_cleared_commits: Some(old(ctx).sale.running_sum),
                status: SaleStatus::Settled,
                ..old(ctx).sale
            }),
            Err(e) => finalize_settlement_failure(*old(ctx)) == Some(e) && final(ctx).sale == old(ctx).sale,
        },
{
    if ctx.sale.status != SaleStatus::Verifying {
        return Err(ProgramError::Custom(ErrorCode::InvalidSaleStatus));
    }
    if !ctx.token_vault.same_as(&ctx.sale.token_vault) {
        return Err(ProgramError::Custom(ErrorCode::InvalidParameters));
    }
    if ctx.sale.verification_count != ctx.sale.total_users {
        return Err(ProgramError::Custom(ErrorCode::VerificationIncomplete));
    }
    if ctx.sale.marginal_user.is_some() && !ctx.sale.marginal_user_verified {
        return Err(ProgramError::Custom(ErrorCode::VerificationIncomplete));
    }
    if ctx.sale.running_sum > ctx.sale.raise_max {
        return Err(ProgramError::Custom(ErrorCode::RunningSumExceedsMax));
    }
    if ctx.sale.running_sum < ctx.sale.raise_min {
        return Err(ProgramError::Custom(ErrorCode::RunningSumBelowMin));
    }
    if ctx.sale.running_sum == 0 {
        return Err(ProgramError::Custom(ErrorCode::InsufficientDemand));
    }
    let clearing_fdv = match ctx.sale.clearing_fdv {
        Some(v) => v,
        None => return Err(ProgramError::Custom(ErrorCode::InvalidSaleStatus)),
    };
    if clearing_fdv == 0 {
        return Err(ProgramError::Custom(ErrorCode::DivisionByZero));
    }
    let sum = ctx.sale.running_sum as u128;
    let supply = ctx.sale.token_supply as u128;
    assert(sum * supply <= u64::MAX as int * u64::MAX as int) by (nonlinear_arith)
        requires
            sum <= u64::MAX,
            supply <= u64::MAX,
    ;
    let total_tokens_needed = sum * supply / (clearing_fdv as u128);
    if total_tokens_needed > u64::MAX as u128 {
        return Err(ProgramError::Custom(ErrorCode::ArithmeticOverflow));
    }
    if (ctx.token_vault_amount as u128) < total_tokens_needed {
        return Err(ProgramError::Custom(ErrorCode::InsufficientTokens));
    }
    ctx.sale.total_cleared_commits = Some(ctx.sale.running_sum);
    ctx.sale.status = SaleStatus::Settled;
    Ok(())
}

/// A finalized settlement raised between the sale's minimum and maximum, and the vault
/// holds the tokens it owes.
pub proof fn law_finalized_raise_within_bounds(ctx: FinalizeSettlement)
    requires
        finalize_settlement_failure(ctx) is None,
    ensures
        ctx.sale.raise_min <= ctx.sale.running_sum <= ctx.sale.raise_max,
        ctx.sale.running_sum > 0,
        tokens_owed(ctx.sale) <= ctx.token_vault_amount,
        ctx.sale.verification_count == ctx.sale.total_users,
{
}

} // verus!
