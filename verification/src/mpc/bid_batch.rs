use vstd::prelude::*;

use crate::mpc::errors::{fail, Error, ErrorCode};
use crate::mpc::state::{RevealedBidBatch, RevealedBidData};
use crate::program_error::ProgramError;

verus! {

impl RevealedBidBatch {
    /// Most bids one batch holds.
    pub const MAX_BIDS_PER_BATCH: usize = 50;

    /// Whether the batch holds its most bids.
    pub fn is_full(&self) -> (r: bool)
        ensures
            r == (self.bids@.len() >= 50),
    {
        self.bids.len() >= Self::MAX_BIDS_PER_BATCH
    }

    /// Appends a bid to a batch that is not full, and counts it.
    pub fn add_bid(&mut self, bid: RevealedBidData) -> (r: Result<(), Error>)
        ensures
            match r {
                Ok(()) => old(self).bids@.len() < 50 && final(self).bids@ == old(self).bids@.push(bid)
                    && final(self).bid_count == final(self).bids@.len() && final(self).sale == old(self).sale && final(self).batch_index == old(self).batch_index && final(self).verified
                    == old(self).verified && final(self).bump == old(self).bump,
                Err(e) => old(self).bids@.len() >= 50 && e == fail(ErrorCode::ChunkTooLarge) && *final(self) == *old(self),
            },
    {
        if self.is_full() {
            return Err(ProgramError::Custom(ErrorCode::ChunkTooLarge));
        }
        self.bids.push(bid);
        self.bid_count = self.bids.len() as u16;
        Ok(())
    }
}

} // verus!
