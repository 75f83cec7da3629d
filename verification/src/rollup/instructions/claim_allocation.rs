use vstd::prelude::*;

use crate::program_error::ProgramError;
use crate::pubkey::Pubkey;
use crate::rollup::errors::{fail, Error, ErrorCode};
use crate::rollup::events::ClaimCompleted;
use crate::rollup::state::{Sale, SaleStatus, SealedBid};

verus! {

/// The accounts of a claim: the sale and its address, the user's bid, the signing user, the
/// token mint, the mint and owner of the user's token account, the token vault, the USDC
/// mint, the mint and owner of the user's USDC account, and the USDC vault.
pub struct ClaimAllocation {
    pub sale: Sale,
    pub sale_key: Pubkey,
    pub sealed_bid: SealedBid,
    pub user: Pubkey,
    pub token_mint: Pubkey,
    pub user_token_account_mint: Pubkey,
    pub user_token_account_owner: Pubkey,
    pub token_vault: Pubkey,
    pub usdc_mint: Pubkey,
    pub user_usdc_account_mint: Pubkey,
    pub user_usdc_account_owner: Pubkey,
    pub usdc_vault: Pubkey,
}

/// Why the claim fails, checked in this order; `None` when it succeeds.
pub open spec fn claim_allocation_failure(ctx: ClaimAllocation) -> Option<Error> {
    let sale = ctx.sale;
    let bid = ctx.sealed_bid;
    if sale.status != SaleStatus::Settled && sale.status != SaleStatus::Finalized {
        Some(fail(ErrorCode::SaleNotSettled))
    } else if !sale.claims_enabled {
        Some(fail(ErrorCode::InvalidSaleStatus))
    } else if bid.sale@ != ctx.sale_key@ || bid.user@ != ctx.user@ || !bid.is_initialized {
        Some(fail(ErrorCode::InvalidParameters))
    } else if bid.claimed {
        Some(fail(ErrorCode::AlreadyClaimed))
    } else if !bid.cleared {
        Some(fail(ErrorCode::InvalidParameters))
    } else if ctx.token_mint@ != sale.token_mint@ {
        Some(fail(ErrorCode::InvalidParameters))
    } else if ctx.user_token_account_mint@ != ctx.token_mint@ || ctx.user_token_account_owner@
        != ctx.user@ {
        Some(fail(ErrorCode::InvalidParameters))
    } else if ctx.token_vault@ != sale.token_vault@ || ctx.usdc_mint@ != sale.usdc_mint@ {
        Some(fail(ErrorCode::InvalidParameters))
    } else if ctx.user_usdc_account_mint@ != ctx.usdc_mint@ || ctx.user_usdc_account_owner@
        != ctx.user@ {
        Some(fail(ErrorCode::InvalidParameters))
    } else if ctx.usdc_vault@ != sale.usdc_vault@ {
        Some(fail(ErrorCode::InvalidParameters))
    } else if bid.allocation == 0 && bid.refund == 0 {
        Some(fail(ErrorCode::InvalidParameters))
    } else {
        None
    }
}

/// Once claims are open, a user with a cleared bid takes their tokens and their refund.
/// On success the event names the tokens to move from the token vault and the USDC to move
/// from the USDC vault (each only when positive); the bid's account is then closed.
pub fn handler_claim_allocation(ctx: &mut ClaimAllocation) -> (r: Result<ClaimCompleted, Error>)
    ensures
        final(ctx).sale == old(ctx).sale,
        final(ctx).sale_key == old(ctx).sale_key,
        final(ctx).user == old(ctx).user,
        match r {
            Ok(event) => claim_allocation_failure(*old(ctx)) is None && final(ctx).sealed_bid == (
            SealedBid { claimed: true, ..old(ctx).sealed_bid }) && event == (ClaimCompleted {
                sale: old(ctx).sale_key,
                user: old(ctx).user,
                tokens: old(ctx).sealed_bid.tokens,
                refund: old(ctx).sealed_bid.refund,
            }),
            Err(e) => claim_allocation_failure(*old(ctx)) == Some(e) && final(ctx).sealed_bid == old(ctx).sealed_bid,
        },
{
    let sale = &ctx.sale;
    if sale.status != SaleStatus::Settled && sale.status != SaleStatus::Finalized {
        return Err(ProgramError::Custom(ErrorCode::SaleNotSettled));
    }
    if !sale.claims_enabled {
        return Err(ProgramError::Custom(ErrorCode::InvalidSaleStatus));
    }
    if !ctx.sealed_bid.sale.same_as(&ctx.sale_key) || !ctx.sealed_bid.user.same_as(&ctx.user)
        || !ctx.sealed_bid.is_initialized {
        return Err(ProgramError::Custom(ErrorCode::InvalidParameters));
    }
    if ctx.sealed_bid.claimed {
        return Err(ProgramError::Custom(ErrorCode::AlreadyClaimed));
    }
    if !ctx.sealed_bid.cleared {
        return Err(ProgramError::Custom(ErrorCode::InvalidParameters));
    }
    if !ctx.token_mint.same_as(&sale.token_mint) {
        return Err(ProgramError::Custom(ErrorCode::InvalidParameters));
    }
    if !ctx.user_token_account_mint.same_as(&ctx.token_mint)
        || !ctx.user_token_account_owner.same_as(&ctx.user) {
        return Err(ProgramError::Custom(ErrorCode::InvalidParameters));
    }
    if !ctx.token_vault.same_as(&sale.token_vault) || !ctx.usdc_mint.same_as(&sale.usdc_mint) {
        return Err(ProgramError::Custom(ErrorCode::InvalidParameters));
    }
    if !ctx.user_usdc_account_mint.same_as(&ctx.usdc_mint) || !ctx.user_usdc_account_owner.same_as(
        &ctx.user,
    ) {
        return Err(ProgramError::Custom(ErrorCode::InvalidParameters));
    }
    if !ctx.usdc_vault.same_as(&sale.usdc_vault) {
        return Err(ProgramError::Custom(ErrorCode::InvalidParameters));
    }
    if ctx.sealed_bid.allocation == 0 && ctx.sealed_bid.refund == 0 {
        return Err(ProgramError::Custom(ErrorCode::InvalidParameters));
    }
    let tokens_to_transfer = ctx.sealed_bid.tokens;
    let refund_to_transfer = ctx.sealed_bid.refund;
    ctx.sealed_bid.claimed = true;
    Ok(
        ClaimCompleted {
            sale: ctx.sale_key,
            user: ctx.user,
            tokens: tokens_to_transfer,
            refund: refund_to_transfer,
        },
    )
}

} // verus!
