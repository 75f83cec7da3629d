use vstd::prelude::*;

use crate::program_error::ProgramError;
use crate::pubkey::Pubkey;
use crate::timelock::errors::{fail, Error, ErrorCode};
use crate::timelock::state::{Sale, SaleStatus};

verus! {

/// The accounts of funding a sale: the sale, the signing authority, the token mint, the
/// mint and owner of the authority's token account, and the token vault.
pub struct FundSale {
    pub sale: Sale,
    pub authority: Pubkey,
    pub token_mint: Pubkey,
    pub authority_token_account_mint: Pubkey,
    pub authority_token_account_owner: Pubkey,
    pub token_vault: Pubkey,
}

/// Tokens the sale must hold to be sold: `token_supply * supply_percentage / 10000`.
pub open spec fn tokens_for_sale(sale: Sale) -> int {
    (sale.token_supply as int * sale.supply_percentage as int) / 10000
}

/// Why funding with `amount` at time `now` fails, checked in this order; `None` when it
/// succeeds.
pub open spec fn fund_sale_failure(ctx: FundSale, amount: u64, now: i64) -> Option<Error> {
    if ctx.sale.authority@ != ctx.authority@ {
        Some(fail(ErrorCode::InvalidParameters))
    } else if ctx.sale.status != SaleStatus::Initialized {
        Some(fail(ErrorCode::SaleNotInitialized))
    } else if ctx.token_mint@ != ctx.sale.token_mint@ {
        Some(fail(ErrorCode::InvalidParameters))
    } else if ctx.authority_token_account_mint@ != ctx.token_mint@
        || ctx.authority_token_account_owner@ != ctx.authority@ {
        Some(fail(ErrorCode::InvalidParameters))
    } else if ctx.token_vault@ != ctx.sale.token_vault@ {
        Some(fail(ErrorCode::InvalidParameters))
    } else if amount == 0 {
        Some(fail(ErrorCode::InvalidAmount))
    } else if now >= ctx.sale.commitment_start {
        Some(fail(ErrorCode::CommitmentWindowClosed))
    } else if amount < tokens_for_sale(ctx.sale) {
        Some(fail(ErrorCode::InsufficientTokens))
    } else {
        None
    }
}

/// Funds a sale before its commitment window opens and activates it. On success the result
/// is the number of tokens to move from the authority's account to the token vault.
pub fn handler_fund_sale(ctx: &mut FundSale, amount: u64, now: i64) -> (r: Result<u64, Error>)
    ensures
        match r {
            Ok(transfer) => fund_sale_failure(*old(ctx), amount, now) is None && transfer == amount
                && final(ctx).sale == (Sale { status: SaleStatus::Active, ..old(ctx).sale })
                && final(ctx).authority == old(ctx).authority && final(ctx).token_mint == old(ctx).token_mint && final(ctx).authority_token_account_mint == old(ctx).authority_token_account_mint && final(ctx).authority_token_account_owner == old(ctx).authority_token_account_owner && final(ctx).token_vault == old(ctx).token_vault,
            Err(e) => fund_sale_failure(*old(ctx), amount, now) == Some(e) && *final(ctx) == *old(ctx),
        },
{
    if !ctx.sale.authority.same_as(&ctx.authority) {
        return Err(ProgramError::Custom(ErrorCode::InvalidParameters));
    }
    if ctx.sale.status != SaleStatus::Initialized {
        return Err(ProgramError::Custom(ErrorCode::SaleNotInitialized));
    }
    if !ctx.token_mint.same_as(&ctx.sale.token_mint) {
        return Err(ProgramError::Custom(ErrorCode::InvalidParameters));
    }
    if !ctx.authority_token_account_mint.same_as(&ctx.token_mint)
        || !ctx.authority_token_account_owner.same_as(&ctx.authority) {
        return Err(ProgramError::Custom(ErrorCode::InvalidParameters));
    }
    if !ctx.token_vault.same_as(&ctx.sale.token_vault) {
        return Err(ProgramError::Custom(ErrorCode::InvalidParameters));
    }
    if amount == 0 {
        return Err(ProgramError::Custom(ErrorCode::InvalidAmount));
    }
    if now >= ctx.sale.commitment_start {
        return Err(ProgramError::Custom(ErrorCode::CommitmentWindowClosed));
    }
    let supply = ctx.sale.token_supply as u128;
    let pct = ctx.sale.supply_percentage as u128;
    assert(supply * pct <= u64::MAX as int * u16::MAX as int) by (nonlinear_arith)
        requires
            supply <= u64::MAX,
            pct <= u16::MAX,
    ;
    let required_tokens = supply * pct / 10000;
    if (amount as u128) < required_tokens {
        return Err(ProgramError::Custom(ErrorCode::InsufficientTokens));
    }
    ctx.sale.status = SaleStatus::Active;
    Ok(amount)
}

} // verus!
