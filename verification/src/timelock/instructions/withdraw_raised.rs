use vstd::prelude::*;

use crate::program_error::ProgramError;
use crate::pubkey::Pubkey;
use crate::timelock::errors::{fail, Error, ErrorCode};
use crate::timelock::state::{Sale, SaleStatus};

verus! {

/// The accounts of withdrawing the raise: the sale, the signing authority, the USDC mint,
/// the USDC vault with its balance, and the treasury.
pub struct WithdrawRaised {
    pub sale: Sale,
    pub authority: Pubkey,
    pub usdc_mint: Pubkey,
    pub usdc_vault: Pubkey,
    pub usdc_vault_amount: u64,
    pub usdc_treasury: Pubkey,
}

/// Why the raise cannot be withdrawn, checked in this order; `None` when it can.
pub open spec fn withdraw_raised_failure(ctx: WithdrawRaised) -> Option<Error> {
    if ctx.sale.authority@ != ctx.authority@ {
        Some(ProgramError::ConstraintHasOne)
    } else if ctx.sale.status != SaleStatus::Settled {
        Some(fail(ErrorCode::InvalidSaleStatus))
    } else if ctx.usdc_mint@ != ctx.sale.usdc_mint@ || ctx.usdc_vault@ != ctx.sale.usdc_vault@
        || ctx.usdc_treasury@ != ctx.sale.usdc_treasury@ {
        Some(fail(ErrorCode::InvalidParameters))
    } else if ctx.sale.running_sum == 0 {
        Some(fail(ErrorCode::InsufficientFunds))
    } else if ctx.usdc_vault_amount < ctx.sale.running_sum {
        Some(fail(ErrorCode::InsufficientFunds))
    } else {
        None
    }
}

/// The authority moves the raised USDC (the verified running sum) to the treasury, which
/// finalizes the sale. On success the result is the USDC to move.
pub fn handler_withdraw_raised(ctx: &mut WithdrawRaised) -> (r: Result<u64, Error>)
    ensures
        final(ctx).authority == old(ctx).authority,
        final(ctx).usdc_vault_amount == old(ctx).usdc_vault_amount,
        match r {
            Ok(amount) => withdraw_raised_failure(*old(ctx)) is None && amount == old(ctx).sale.running_sum && final(ctx).sale == (Sale {
                status: SaleStatus::Finalized,
                ..old(ctx).sale
            }),
            Err(e) => withdraw_raised_failure(*old(ctx)) == Some(e) && final(ctx).sale == old(ctx).sale,
        },
{
    if !ctx.sale.authority.same_as(&ctx.authority) {
        return Err(ProgramError::ConstraintHasOne);
    }
    if ctx.sale.status != SaleStatus::Settled {
        return Err(ProgramError::Custom(ErrorCode::InvalidSaleStatus));
    }
    if !ctx.usdc_mint.same_as(&ctx.sale.usdc_mint) || !ctx.usdc_vault.same_as(&ctx.sale.usdc_vault)
        || !ctx.usdc_treasury.same_as(&ctx.sale.usdc_treasury) {
        return Err(ProgramError::Custom(ErrorCode::InvalidParameters));
    }
    let raised_amount = ctx.sale.running_sum;
    if raised_amount == 0 {
        return Err(ProgramError::Custom(ErrorCode::InsufficientFunds));
    }
    if ctx.usdc_vault_amount < raised_amount {
        return Err(ProgramError::Custom(ErrorCode::InsufficientFunds));
    }
    ctx.sale.status = SaleStatus::Finalized;
    Ok(raised_amount)
}

/// Raised USDC is only ever paid to the treasury recorded on the sale, and never more than
/// the vault holds.
pub proof fn law_raise_goes_to_recorded_treasury(ctx: WithdrawRaised)
    requires
        withdraw_raised_failure(ctx) is None,
    ensures
        ctx.usdc_treasury@ == ctx.sale.usdc_treasury@,
        ctx.sale.running_sum <= ctx.usdc_vault_amount,
{
}

} // verus!
