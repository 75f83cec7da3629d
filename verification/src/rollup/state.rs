use vstd::prelude::*;

use crate::pubkey::Pubkey;

verus! {

/// Where a sale stands in its lifecycle.
#[derive(Clone, Copy, Debug, PartialEq, Eq, Structural)]
pub enum SaleStatus {
    Initialized,
    Active,
    /// The sealed bids are delegated to the rollup.
    Delegated,
    /// The settlement is being computed in the rollup.
    Computing,
    /// Allocations are written and the bids zeroed.
    Allocated,
    /// Every account is back on the base chain and the settlement is checked.
    Settled,
    Finalized,
    Cancelled,
    Refunding,
}

/// A token sale whose bids are written and settled inside an ephemeral rollup.
#[derive(Debug)]
pub struct Sale {
    pub authority: Pubkey,
    pub token_mint: Pubkey,
    pub usdc_mint: Pubkey,
    pub usdc_vault: Pubkey,
    pub token_vault: Pubkey,
    /// Fixed destination of the raised USDC.
    pub usdc_treasury: Pubkey,
    /// Fixed destination of the unsold tokens.
    pub token_treasury: Pubkey,
    pub token_supply: u64,
    /// Share of the supply that is sold, in basis points.
    pub supply_percentage: u16,
    pub raise_min: u64,
    pub raise_max: u64,
    pub fdv_min: u64,
    pub fdv_max: u64,
    pub min_commitment: u64,
    pub commitment_start: i64,
    pub commitment_end: i64,
    pub score_merkle_root: [u8; 32],
    pub clearing_fdv: Option<u64>,
    pub total_cleared_commits: Option<u64>,
    /// Pro-rata fill rate, in basis points.
    pub fill_rate: Option<u64>,
    pub marginal_user: Option<Pubkey>,
    pub marginal_allocation: Option<u64>,
    pub marginal_user_verified: bool,
    /// Bids allocated so far.
    pub verification_count: u32,
    pub total_users: u32,
    pub total_committed: u64,
    /// Allocations written so far, summed.
    pub running_sum: u64,
    pub status: SaleStatus,
    pub is_paused: bool,
    pub claims_enabled: bool,
    /// Validator of the rollup the bids are delegated to.
    pub per_validator: Pubkey,
    pub settlement_computed: bool,
    /// Every bid's maximum FDV has been erased.
    pub bids_zeroed: bool,
    pub name: String,
    pub created_at: i64,
    pub bump: u8,
}

/// A user's bid: the USDC committed, the maximum FDV written privately in the rollup and
/// erased before the account leaves it, and the allocation.
#[derive(Clone, Copy, Debug, PartialEq, Eq)]
pub struct SealedBid {
    pub is_initialized: bool,
    pub sale: Pubkey,
    pub user: Pubkey,
    pub amount: u64,
    pub max_fdv_plaintext: Option<u64>,
    pub bid_submitted: bool,
    pub cleared: bool,
    pub is_marginal: bool,
    pub allocation: u64,
    pub refund: u64,
    pub tokens: u64,
    pub claimed: bool,
    pub commit_time: i64,
    pub bump: u8,
}

} // verus!
