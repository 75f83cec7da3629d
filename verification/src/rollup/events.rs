use vstd::prelude::*;

use crate::pubkey::Pubkey;

verus! {

/// A sale was created.
#[derive(Clone, Copy, Debug, PartialEq, Eq)]
pub struct SaleInitialized {
    pub sale: Pubkey,
    pub authority: Pubkey,
    pub token_mint: Pubkey,
    pub raise_min: u64,
    pub raise_max: u64,
    pub per_validator: Pubkey,
}

/// A sale was funded with tokens.
#[derive(Clone, Copy, Debug, PartialEq, Eq)]
pub struct SaleFunded {
    pub sale: Pubkey,
    pub amount: u64,
}

/// A user committed USDC.
#[derive(Clone, Copy, Debug, PartialEq, Eq)]
pub struct CommitmentMade {
    pub sale: Pubkey,
    pub user: Pubkey,
    pub amount: u64,
}

/// A bid was submitted in the rollup.
#[derive(Clone, Copy, Debug, PartialEq, Eq)]
pub struct BidSubmitted {
    pub sale: Pubkey,
    pub user: Pubkey,
}

/// A bid was changed in the rollup.
#[derive(Clone, Copy, Debug, PartialEq, Eq)]
pub struct BidUpdated {
    pub sale: Pubkey,
    pub user: Pubkey,
}

/// The settlement terms were set.
#[derive(Clone, Copy, Debug, PartialEq, Eq)]
pub struct SettlementComputed {
    pub sale: Pubkey,
    pub clearing_fdv: u64,
    pub fill_rate: u64,
}

/// A batch of bids was allocated.
#[derive(Clone, Copy, Debug, PartialEq, Eq)]
pub struct BatchAllocated {
    pub sale: Pubkey,
    pub batch_size: u32,
    pub verification_count: u32,
}

/// A batch of bids left the rollup.
#[derive(Clone, Copy, Debug, PartialEq, Eq)]
pub struct BatchUndelegated {
    pub sale: Pubkey,
    pub batch_size: u32,
}

/// The settlement was finalized.
#[derive(Clone, Copy, Debug, PartialEq, Eq)]
pub struct SettlementFinalized {
    pub sale: Pubkey,
    pub total_raised: u64,
    pub total_users: u32,
}

/// Claims were opened.
#[derive(Clone, Copy, Debug, PartialEq, Eq)]
pub struct ClaimsEnabled {
    pub sale: Pubkey,
}

/// A user claimed tokens and refund.
#[derive(Clone, Copy, Debug, PartialEq, Eq)]
pub struct ClaimCompleted {
    pub sale: Pubkey,
    pub user: Pubkey,
    pub tokens: u64,
    pub refund: u64,
}

/// A user claimed a full refund.
#[derive(Clone, Copy, Debug, PartialEq, Eq)]
pub struct RefundClaimed {
    pub sale: Pubkey,
    pub user: Pubkey,
    pub amount: u64,
}

/// The sale was paused.
#[derive(Clone, Copy, Debug, PartialEq, Eq)]
pub struct SalePaused {
    pub sale: Pubkey,
}

/// The sale was resumed.
#[derive(Clone, Copy, Debug, PartialEq, Eq)]
pub struct SaleUnpaused {
    pub sale: Pubkey,
}

/// The sale was cancelled.
#[derive(Clone, Copy, Debug, PartialEq, Eq)]
pub struct SaleCancelled {
    pub sale: Pubkey,
}

/// The sale switched to refunds.
#[derive(Clone, Copy, Debug, PartialEq, Eq)]
pub struct RefundModeEnabled {
    pub sale: Pubkey,
}

/// Unsold tokens were withdrawn.
#[derive(Clone, Copy, Debug, PartialEq, Eq)]
pub struct UnsoldWithdrawn {
    pub sale: Pubkey,
    pub amount: u64,
}

/// The raised USDC was withdrawn.
#[derive(Clone, Copy, Debug, PartialEq, Eq)]
pub struct RaisedWithdrawn {
    pub sale: Pubkey,
    pub amount: u64,
}

} // verus!
