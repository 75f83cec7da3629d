use vstd::prelude::*;

use crate::mpc::errors::{fail, Error, ErrorCode};
use crate::mpc::state::{Sale, SaleStatus, STATE_LEN};
use crate::program_error::ProgramError;

verus! {

/// The accounts of queueing the initial encrypted state: the sale.
pub struct QueueInitState {
    pub sale: Sale,
}

/// The accounts of receiving the initial encrypted state: the sale.
pub struct InitAuctionStateCallback {
    pub sale: Sale,
}

/// Why the initial state cannot be queued; `None` when it can.
pub open spec fn queue_init_state_failure(sale: Sale) -> Option<Error> {
    if sale.status != SaleStatus::Active {
        Some(fail(ErrorCode::InvalidSaleStatus))
    } else if sale.state_nonce != 0 {
        Some(fail(ErrorCode::AlreadyProcessed))
    } else {
        None
    }
}

/// Checks that an active sale has no encrypted state yet; the computation that creates it
/// takes no input.
pub fn handler_queue_init_state(ctx: &QueueInitState) -> (r: Result<(), Error>)
    ensures
        match r {
            Ok(()) => queue_init_state_failure(ctx.sale) is None,
            Err(e) => queue_init_state_failure(ctx.sale) == Some(e),
        },
{
    if ctx.sale.status != SaleStatus::Active {
        return Err(ProgramError::Custom(ErrorCode::InvalidSaleStatus));
    }
    if ctx.sale.state_nonce != 0 {
        return Err(ProgramError::Custom(ErrorCode::AlreadyProcessed));
    }
    Ok(())
}

/// Stores the encrypted state that the cluster computed: its nonce and ciphertexts.
pub fn init_auction_state_callback(
    ctx: &mut InitAuctionStateCallback,
    nonce: u128,
    ciphertexts: [[u8; 32]; STATE_LEN],
) -> (r: Result<(), Error>)
    ensures
        r is Ok,
        final(ctx).sale == (Sale { state_nonce: nonce, encrypted_state: ciphertexts, ..old(ctx).sale }),
{
    ctx.sale.state_nonce = nonce;
    ctx.sale.encrypted_state = ciphertexts;
    Ok(())
}

} // verus!
