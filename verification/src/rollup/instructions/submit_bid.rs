use vstd::prelude::*;

use crate::program_error::ProgramError;
use crate::pubkey::Pubkey;
use crate::rollup::errors::{fail, Error, ErrorCode};
use crate::rollup::events::BidSubmitted;
use crate::rollup::state::{Sale, SaleStatus, SealedBid};

verus! {

/// The accounts of submitting a bid: the sale and its address, the user's bid, and the
/// signing user.
pub struct SubmitBid {
    pub sale: Sale,
    pub sale_key: Pubkey,
    pub sealed_bid: SealedBid,
    pub user: Pubkey,
}

/// Why writing a bid at `now` fails, for a first submission (`first`) or an update, checked
/// in this order; `None` when it is written.
pub open spec fn bid_write_failure(
    sale: Sale,
    sale_key: Pubkey,
    bid: SealedBid,
    user: Pubkey,
    first: bool,
    now: i64,
    max_fdv: u64,
) -> Option<Error> {
    if sale.status != SaleStatus::Active || sale.is_paused {
        Some(fail(ErrorCode::SaleNotActive))
    } else if !bid.is_initialized || bid.sale@ != sale_key@ || bid.user@ != user@ {
        Some(fail(ErrorCode::InvalidParameters))
    } else if first && bid.bid_submitted {
        Some(fail(ErrorCode::BidAlreadySubmitted))
    } else if !first && !bid.bid_submitted {
        Some(fail(ErrorCode::BidNotSubmitted))
    } else if now < sale.commitment_start {
        Some(fail(ErrorCode::OutsideCommitmentWindow))
    } else if now > sale.commitment_end {
        Some(fail(ErrorCode::CommitmentWindowClosed))
    } else if max_fdv < sale.fdv_min || max_fdv > sale.fdv_max {
        Some(fail(ErrorCode::MaxFdvOutOfRange))
    } else {
        None
    }
}

/// The user writes their maximum FDV, within the sale's range, during the commitment
/// window; this happens in the rollup, so the value stays private.
pub fn handler_submit_bid(ctx: &mut SubmitBid, now: i64, max_fdv: u64) -> (r: Result<
    BidSubmitted,
    Error,
>)
    ensures
        final(ctx).sale == old(ctx).sale,
        final(ctx).sale_key == old(ctx).sale_key,
        final(ctx).user == old(ctx).user,
        match r {
            Ok(event) => bid_write_failure(
                old(ctx).sale,
                old(ctx).sale_key,
                old(ctx).sealed_bid,
                old(ctx).user,
                true,
                now,
                max_fdv,
            ) is None && final(ctx).sealed_bid == (SealedBid {
                max_fdv_plaintext: Some(max_fdv),
                bid_submitted: true,
                ..old(ctx).sealed_bid
            }) && event == (BidSubmitted { sale: old(ctx).sale_key, user: old(ctx).user }),
            Err(e) => bid_write_failure(
                old(ctx).sale,
                old(ctx).sale_key,
                old(ctx).sealed_bid,
                old(ctx).user,
                true,
                now,
                max_fdv,
            ) == Some(e) && final(ctx).sealed_bid == old(ctx).sealed_bid,
        },
{
    if ctx.sale.status != SaleStatus::Active || ctx.sale.is_paused {
        return Err(ProgramError::Custom(ErrorCode::SaleNotActive));
    }
    if !ctx.sealed_bid.is_initialized || !ctx.sealed_bid.sale.same_as(&ctx.sale_key)
        || !ctx.sealed_bid.user.same_as(&ctx.user) {
        return Err(ProgramError::Custom(ErrorCode::InvalidParameters));
    }
    if ctx.sealed_bid.bid_submitted {
        return Err(ProgramError::Custom(ErrorCode::BidAlreadySubmitted));
    }
    if now < ctx.sale.commitment_start {
        return Err(ProgramError::Custom(ErrorCode::OutsideCommitmentWindow));
    }
    if now > ctx.sale.commitment_end {
        return Err(ProgramError::Custom(ErrorCode::CommitmentWindowClosed));
    }
    if max_fdv < ctx.sale.fdv_min || max_fdv > ctx.sale.fdv_max {
        return Err(ProgramError::Custom(ErrorCode::MaxFdvOutOfRange));
    }
    ctx.sealed_bid.max_fdv_plaintext = Some(max_fdv);
    ctx.sealed_bid.bid_submitted = true;
    Ok(BidSubmitted { sale: ctx.sale_key, user: ctx.user })
}

} // verus!
