use vstd::prelude::*;

use crate::program_error::ProgramError;
use crate::pubkey::Pubkey;
use crate::rollup::errors::{fail, Error, ErrorCode};
use crate::rollup::events::BidUpdated;
use crate::rollup::instructions::submit_bid::bid_write_failure;
use crate::rollup::state::{Sale, SaleStatus, SealedBid};

verus! {

/// The accounts of updating a bid: the sale and its address, the user's bid, and the
/// signing user.
pub struct UpdateBidMb {
    pub sale: Sale,
    pub sale_key: Pubkey,
    pub sealed_bid: SealedBid,
    pub user: Pubkey,
}

/// The user replaces their submitted maximum FDV while the commitment window is open.
pub fn handler_update_bid_mb(ctx: &mut UpdateBidMb, now: i64, max_fdv: u64) -> (r: Result<
    BidUpdated,
    Error,
>)
    ensures
        final(ctx).sale == old(ctx).sale,
        final(ctx).sale_key == old(ctx).sale_key,
        final(ctx).user == old(ctx).user,
        match r {
            Ok(event) => bid_write_failure(
                old(ctx).sale,
                old(ctx).sale_key,
                old(ctx).sealed_bid,
                old(ctx).user,
                false,
                now,
                max_fdv,
            ) is None && final(ctx).sealed_bid == (SealedBid {
                max_fdv_plaintext: Some(max_fdv),
                ..old(ctx).sealed_bid
            }) && event == (BidUpdated { sale: old(ctx).sale_key, user: old(ctx).user }),
            Err(e) => bid_write_failure(
                old(ctx).sale,
                old(ctx).sale_key,
                old(ctx).sealed_bid,
                old(ctx).user,
                false,
                now,
                max_fdv,
            ) == Some(e) && final(ctx).sealed_bid == old(ctx).sealed_bid,
        },
{
    if ctx.sale.status != SaleStatus::Active || ctx.sale.is_paused {
        return Err(ProgramError::Custom(ErrorCode::SaleNotActive));
    }
    if !ctx.sealed_bid.is_initialized || !ctx.sealed_bid.sale.same_as(&ctx.sale_key)
        || !ctx.sealed_bid.user.same_as(&ctx.user) {
        return Err(ProgramError::Custom(ErrorCode::InvalidParameters));
    }
    if !ctx.sealed_bid.bid_submitted {
        return Err(ProgramError::Custom(ErrorCode::BidNotSubmitted));
    }
    if now < ctx.sale.commitment_start {
        return Err(ProgramError::Custom(ErrorCode::OutsideCommitmentWindow));
    }
    if now > ctx.sale.commitment_end {
        return Err(ProgramError::Custom(ErrorCode::CommitmentWindowClosed));
    }
    if max_fdv < ctx.sale.fdv_min || max_fdv > ctx.sale.fdv_max {
        return Err(ProgramError::Custom(ErrorCode::MaxFdvOutOfRange));
    }
    ctx.sealed_bid.max_fdv_plaintext = Some(max_fdv);
    Ok(BidUpdated { sale: ctx.sale_key, user: ctx.user })
}

/// A submitted bid can be changed to any other price in range while the window is open, and
/// the update keeps it submitted.
pub proof fn law_update_follows_submit(
    sale: Sale,
    sale_key: Pubkey,
    bid: SealedBid,
    user: Pubkey,
    now: i64,
    first_fdv: u64,
    second_fdv: u64,
)
    requires
        bid_write_failure(sale, sale_key, bid, user, true, now, first_fdv) is None,
        sale.fdv_min <= second_fdv <= sale.fdv_max,
    ensures
        bid_write_failure(
            sale,
            sale_key,
            SealedBid { max_fdv_plaintext: Some(first_fdv), bid_submitted: true, ..bid },
            user,
            false,
            now,
            second_fdv,
        ) is None,
{
}

} // verus!
