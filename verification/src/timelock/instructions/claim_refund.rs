use vstd::prelude::*;

use crate::program_error::ProgramError;
use crate::pubkey::Pubkey;
use crate::timelock::errors::{fail, Error, ErrorCode};
use crate::timelock::state::{Sale, SaleStatus, SealedBid};

verus! {

/// The accounts of a refund claim: the sale and its address, the user's bid, the signing
/// user, the USDC mint, the mint and owner of the user's USDC account, and the USDC vault.
pub struct ClaimRefund {
    pub sale: Sale,
    pub sale_key: Pubkey,
    pub sealed_bid: SealedBid,
    pub user: Pubkey,
    pub usdc_mint: Pubkey,
    pub user_usdc_account_mint: Pubkey,
    pub user_usdc_account_owner: Pubkey,
    pub usdc_vault: Pubkey,
}

/// Why the refund cannot be claimed, checked in this order; `None` when it can.
pub open spec fn claim_refund_failure(ctx: ClaimRefund) -> Option<Error> {
    let bid = ctx.sealed_bid;
    if ctx.sale.status != SaleStatus::Cancelled && ctx.sale.status != SaleStatus::Refunding {
        Some(fail(ErrorCode::SaleNotCancelled))
    } else if bid.sale@ != ctx.sale_key@ || bid.user@ != ctx.user@ || !bid.is_initialized {
        Some(fail(ErrorCode::InvalidParameters))
    } else if bid.claimed {
        Some(fail(ErrorCode::AlreadyClaimed))
    } else if bid.amount == 0 {
        Some(fail(ErrorCode::InvalidAmount))
    } else if ctx.usdc_mint@ != ctx.sale.usdc_mint@ {
        Some(fail(ErrorCode::InvalidParameters))
    } else if ctx.user_usdc_account_mint@ != ctx.usdc_mint@ || ctx.user_usdc_account_owner@
        != ctx.user@ {
        Some(fail(ErrorCode::InvalidParameters))
    } else if ctx.usdc_vault@ != ctx.sale.usdc_vault@ {
        Some(fail(ErrorCode::InvalidParameters))
    } else {
        None
    }
}

/// After a cancellation or in refund mode, a user takes back all the USDC they committed.
/// On success the result is the USDC to move from the vault to the user; the bid's account
/// is then closed.
pub fn handler_claim_refund(ctx: &mut ClaimRefund) -> (r: Result<u64, Error>)
    ensures
        final(ctx).sale == old(ctx).sale,
        match r {
            Ok(refund) => claim_refund_failure(*old(ctx)) is None && refund == old(ctx).sealed_bid.amount && final(ctx).sealed_bid == (SealedBid {
                claimed: true,
                refund: old(ctx).sealed_bid.amount,
                ..old(ctx).sealed_bid
            }),
            Err(e) => claim_refund_failure(*old(ctx)) == Some(e) && *final(ctx) == *old(ctx),
        },
{
    if ctx.sale.status != SaleStatus::Cancelled && ctx.sale.status != SaleStatus::Refunding {
        return Err(ProgramError::Custom(ErrorCode::SaleNotCancelled));
    }
    if !ctx.sealed_bid.sale.same_as(&ctx.sale_key) || !ctx.sealed_bid.user.same_as(&ctx.user)
        || !ctx.sealed_bid.is_initialized {
        return Err(ProgramError::Custom(ErrorCode::InvalidParameters));
    }
    if ctx.sealed_bid.claimed {
        return Err(ProgramError::Custom(ErrorCode::AlreadyClaimed));
    }
    if ctx.sealed_bid.amount == 0 {
        return Err(ProgramError::Custom(ErrorCode::InvalidAmount));
    }
    if !ctx.usdc_mint.same_as(&ctx.sale.usdc_mint) {
        return Err(ProgramError::Custom(ErrorCode::InvalidParameters));
    }
    if !ctx.user_usdc_account_mint.same_as(&ctx.usdc_mint) || !ctx.user_usdc_account_owner.same_as(
        &ctx.user,
    ) {
        return Err(ProgramError::Custom(ErrorCode::InvalidParameters));
    }
    if !ctx.usdc_vault.same_as(&ctx.sale.usdc_vault) {
        return Err(ProgramError::Custom(ErrorCode::InvalidParameters));
    }
    let refund_amount = ctx.sealed_bid.amount;
    ctx.sealed_bid.claimed = true;
    ctx.sealed_bid.refund = refund_amount;
    Ok(refund_amount)
}

} // verus!
