use vstd::prelude::*;

use crate::mpc::errors::{fail, Error, ErrorCode};
use crate::mpc::state::{Sale, SaleStatus, SealedBid, STATE_LEN};
use crate::program_error::ProgramError;
use crate::pubkey::Pubkey;

verus! {

/// The accounts of queueing a bid into the encrypted state: the sale, its address, and the
/// bid.
pub struct QueueSubmitBid {
    pub sale: Sale,
    pub sale_key: Pubkey,
    pub sealed_bid: SealedBid,
}

/// The accounts of receiving the updated encrypted state: the sale.
pub struct SubmitBidCallback {
    pub sale: Sale,
}

/// The plaintext arguments of adding a bid to the encrypted state.
#[derive(Clone, Copy, Debug, PartialEq, Eq)]
pub struct SubmitBidArgs {
    pub amount: u64,
    pub fdv_min: u64,
    pub fdv_max: u64,
    pub bucket_count: u64,
}

/// Why the bid cannot be queued, checked in this order; `None` when it can.
pub open spec fn queue_submit_bid_failure(ctx: QueueSubmitBid) -> Option<Error> {
    if ctx.sale.status != SaleStatus::Active {
        Some(fail(ErrorCode::InvalidSaleStatus))
    } else if ctx.sale.state_nonce == 0 {
        Some(fail(ErrorCode::InvalidParameters))
    } else if ctx.sealed_bid.sale@ != ctx.sale_key@ || !ctx.sealed_bid.is_initialized {
        Some(fail(ErrorCode::InvalidParameters))
    } else if ctx.sealed_bid.bid_submitted {
        Some(fail(ErrorCode::AlreadyProcessed))
    } else {
        None
    }
}

/// Checks that the bid has not been queued yet, marks it queued, and gives the plaintext
/// arguments with which it is added to the encrypted state: its amount and the sale's FDV
/// range and bucket count. Each bid enters the encrypted state at most once.
pub fn handler_queue_submit_bid(ctx: &mut QueueSubmitBid) -> (r: Result<SubmitBidArgs, Error>)
    ensures
        final(ctx).sale == old(ctx).sale,
        final(ctx).sale_key == old(ctx).sale_key,
        match r {
            Ok(args) => queue_submit_bid_failure(*old(ctx)) is None && args == (SubmitBidArgs {
                amount: old(ctx).sealed_bid.amount,
                fdv_min: old(ctx).sale.fdv_min,
                fdv_max: old(ctx).sale.fdv_max,
                bucket_count: old(ctx).sale.bucket_count as u64,
            }) && final(ctx).sealed_bid == (SealedBid { bid_submitted: true, ..old(ctx).sealed_bid }),
            Err(e) => queue_submit_bid_failure(*old(ctx)) == Some(e) && final(ctx).sealed_bid
                == old(ctx).sealed_bid,
        },
{
    if ctx.sale.status != SaleStatus::Active {
        return Err(ProgramError::Custom(ErrorCode::InvalidSaleStatus));
    }
    if ctx.sale.state_nonce == 0 {
        return Err(ProgramError::Custom(ErrorCode::InvalidParameters));
    }
    if !ctx.sealed_bid.sale.same_as(&ctx.sale_key) || !ctx.sealed_bid.is_initialized {
        return Err(ProgramError::Custom(ErrorCode::InvalidParameters));
    }
    if ctx.sealed_bid.bid_submitted {
        return Err(ProgramError::Custom(ErrorCode::AlreadyProcessed));
    }
    ctx.sealed_bid.bid_submitted = true;
    Ok(
        SubmitBidArgs {
            amount: ctx.sealed_bid.amount,
            fdv_min: ctx.sale.fdv_min,
            fdv_max: ctx.sale.fdv_max,
            bucket_count: ctx.sale.bucket_count as u64,
        },
    )
}

/// A bid that has been queued once is refused on every later attempt, so its amount enters
/// the encrypted state at most once.
pub proof fn law_bid_is_queued_once(ctx: QueueSubmitBid, later: QueueSubmitBid)
    requires
        queue_submit_bid_failure(ctx) is None,
        later.sealed_bid == (SealedBid { bid_submitted: true, ..ctx.sealed_bid }),
    ensures
        queue_submit_bid_failure(later) is Some,
{
}

/// Stores the encrypted state with the bid added: its nonce and ciphertexts.
pub fn submit_bid_callback(
    ctx: &mut SubmitBidCallback,
    nonce: u128,
    ciphertexts: [[u8; 32]; STATE_LEN],
) -> (r: Result<(), Error>)
    ensures
        r is Ok,
        final(ctx).sale == (Sale { state_nonce: nonce, encrypted_state: ciphertexts, ..old(ctx).sale }),
{
    ctx.sale.state_nonce = nonce;
    ctx.sale.encrypted_state = ciphertexts;
    Ok(())
}

} // verus!
