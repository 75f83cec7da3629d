use vstd::prelude::*;

use crate::program_error::ProgramError;
use crate::pubkey::Pubkey;
use crate::rollup::errors::{fail, Error, ErrorCode};
use crate::rollup::events::UnsoldWithdrawn;
use crate::rollup::state::{Sale, SaleStatus};

verus! {

/// The accounts of withdrawing unsold tokens: the sale and its address, the signing
/// authority, the token mint, the token vault with its balance, and the token treasury.
pub struct WithdrawUnsold {
    pub sale: Sale,
    pub sale_key: Pubkey,
    pub authority: Pubkey,
    pub token_mint: Pubkey,
    pub token_vault: Pubkey,
    pub token_vault_amount: u64,
    pub token_treasury: Pubkey,
}

/// Statuses in which unsold tokens can be withdrawn.
pub open spec fn withdrawable(status: SaleStatus) -> bool {
    ||| status == SaleStatus::Settled
    ||| status == SaleStatus::Finalized
    ||| status == SaleStatus::Cancelled
    ||| status == SaleStatus::Refunding
}

/// Tokens still owed to buyers: none once the sale is cancelled or refunding, else what the
/// raise buys at the clearing FDV (`running_sum * token_supply / clearing_fdv`), none
/// without a clearing FDV.
pub open spec fn tokens_owed_to_users(sale: Sale) -> int {
    if sale.status == SaleStatus::Cancelled || sale.status == SaleStatus::Refunding {
        0
    } else {
        match sale.clearing_fdv {
            Some(c) => if c > 0 {
                (sale.running_sum as int * sale.token_supply as int) / (c as int)
            } else {
                0
            },
            None => 0,
        }
    }
}

/// Why nothing can be withdrawn, checked in this order; `None` when something can.
pub open spec fn withdraw_unsold_failure(ctx: WithdrawUnsold) -> Option<Error> {
    let sale = ctx.sale;
    if sale.authority@ != ctx.authority@ {
        Some(ProgramError::ConstraintHasOne)
    } else if !withdrawable(sale.status) {
        Some(fail(ErrorCode::InvalidSaleStatus))
    } else if ctx.token_mint@ != sale.token_mint@ || ctx.token_vault@ != sale.token_vault@
        || ctx.token_treasury@ != sale.token_treasury@ {
        Some(fail(ErrorCode::InvalidParameters))
    } else if ctx.token_vault_amount == 0 {
        Some(fail(ErrorCode::InsufficientTokens))
    } else if tokens_owed_to_users(sale) > u64::MAX {
        Some(fail(ErrorCode::ArithmeticOverflow))
    } else if ctx.token_vault_amount <= tokens_owed_to_users(sale) {
        Some(fail(ErrorCode::InsufficientTokens))
    } else {
        None
    }
}

/// The authority moves the tokens that no buyer is owed from the vault to the treasury; the
/// event names that amount.
pub fn handler_withdraw_unsold(ctx: &WithdrawUnsold) -> (r: Result<UnsoldWithdrawn, Error>)
    ensures
        match r {
            Ok(event) => withdraw_unsold_failure(*ctx) is None && event == (UnsoldWithdrawn {
                sale: ctx.sale_key,
                amount: (ctx.token_vault_amount - tokens_owed_to_users(ctx.sale)) as u64,
            }),
            Err(e) => withdraw_unsold_failure(*ctx) == Some(e),
        },
{
    let sale = &ctx.sale;
    if !sale.authority.same_as(&ctx.authority) {
        return Err(ProgramError::ConstraintHasOne);
    }
    let s = sale.status;
    if !(s == SaleStatus::Settled || s == SaleStatus::Finalized || s == SaleStatus::Cancelled || s
        == SaleStatus::Refunding) {
        return Err(ProgramError::Custom(ErrorCode::InvalidSaleStatus));
    }
    if !ctx.token_mint.same_as(&sale.token_mint) || !ctx.token_vault.same_as(&sale.token_vault)
        || !ctx.token_treasury.same_as(&sale.token_treasury) {
        return Err(ProgramError::Custom(ErrorCode::InvalidParameters));
    }
    let vault_balance = ctx.token_vault_amount;
    if vault_balance == 0 {
        return Err(ProgramError::Custom(ErrorCode::InsufficientTokens));
    }
    let tokens_owed: u64 = if s == SaleStatus::Cancelled || s == SaleStatus::Refunding {
        0
    } else {
        match sale.clearing_fdv {
            Some(clearing_fdv) => {
                if clearing_fdv > 0 {
                    let sum = sale.running_sum as u128;
                    let supply = sale.token_supply as u128;
                    assert(sum * supply <= u64::MAX as int * u64::MAX as int) by (nonlinear_arith)
                        requires
                            sum <= u64::MAX,
                            supply <= u64::MAX,
                    ;
                    let tokens = sum * supply / (clearing_fdv as u128);
                    if tokens > u64::MAX as u128 {
                        return Err(ProgramError::Custom(ErrorCode::ArithmeticOverflow));
                    }
                    tokens as u64
                } else {
                    0
                }
            },
            None => 0,
        }
    };
    if vault_balance < tokens_owed {
        return Err(ProgramError::Custom(ErrorCode::InsufficientTokens));
    }
    let remaining_tokens = vault_balance - tokens_owed;
    if remaining_tokens == 0 {
        return Err(ProgramError::Custom(ErrorCode::InsufficientTokens));
    }
    Ok(UnsoldWithdrawn { sale: ctx.sale_key, amount: remaining_tokens })
}

/// Unsold tokens are only ever paid to the token treasury recorded on the sale, and the
/// tokens owed to buyers stay in the vault.
pub proof fn law_unsold_goes_to_recorded_treasury(ctx: WithdrawUnsold)
    requires
        withdraw_unsold_failure(ctx) is None,
    ensures
        ctx.token_treasury@ == ctx.sale.token_treasury@,
        tokens_owed_to_users(ctx.sale) < ctx.token_vault_amount,
{
}

} // verus!
