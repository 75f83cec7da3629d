use vstd::prelude::*;

use crate::pubkey::Pubkey;

verus! {

/// Most demand buckets of the encrypted auction state.
pub const MAX_BUCKET_COUNT: usize = 200;

/// Slots of the encrypted auction state: the buckets, the bid count, the total demand, and
/// three reserved slots.
pub const STATE_LEN: usize = 205;

/// Byte offset of `state_nonce` within the sale account's data, after the 8-byte
/// discriminator.
pub const ENCRYPTED_STATE_OFFSET: u32 = 336;

/// Byte length of the encrypted state: a 16-byte nonce and `STATE_LEN` 32-byte ciphertexts.
pub const ENCRYPTED_STATE_LENGTH: u32 = 6576;

/// Where a sale stands in its lifecycle.
#[derive(Clone, Copy, Debug, PartialEq, Eq, Structural)]
pub enum SaleStatus {
    Initialized,
    Active,
    CommitmentEnded,
    /// The commitment window is closed; settlement may start.
    Ready,
    /// The settlement computation is running.
    Settling,
    /// The settlement is known; bids are being checked.
    Settled,
    CheckingBids,
    /// Every bid is checked and claims are enabled.
    Finalized,
    Cancelled,
    Refunding,
}

/// A token sale whose bids stay encrypted: demand is kept per FDV bucket in an encrypted
/// state, and the settlement comes back from the MPC cluster.
#[derive(Debug)]
pub struct Sale {
    pub authority: Pubkey,
    pub token_mint: Pubkey,
    pub usdc_mint: Pubkey,
    pub usdc_vault: Pubkey,
    pub token_vault: Pubkey,
    pub token_supply: u64,
    /// Share of the supply that is sold, in basis points.
    pub supply_percentage: u16,
    pub raise_min: u64,
    pub raise_max: u64,
    pub fdv_min: u64,
    pub fdv_max: u64,
    pub min_commitment: u64,
    /// Number of demand buckets.
    /// Number of demand buckets, 1 to `MAX_BUCKET_COUNT`.
    pub bucket_count: u16,
    pub commitment_start: i64,
    pub commitment_end: i64,
    pub score_merkle_root: [u8; 32],
    pub clearing_fdv: Option<u64>,
    /// Fill rate of the marginal bucket, in basis points.
    pub marginal_fill_rate: Option<u64>,
    pub clearing_bucket_low: Option<u64>,
    pub clearing_bucket_high: Option<u64>,
    pub total_raised: Option<u64>,
    pub total_users: u32,
    pub total_committed: u64,
    pub settlement_nonce: u64,
    pub status: SaleStatus,
    pub is_paused: bool,
    pub claims_enabled: bool,
    /// Nonce of the encrypted state.
    pub state_nonce: u128,
    /// Ciphertexts of the encrypted state.
    pub encrypted_state: [[u8; 32]; STATE_LEN],
    /// Bids checked since the settlement.
    pub bids_checked: u32,
    pub arcium_settled: bool,
    pub name: String,
    pub created_at: i64,
    pub bump: u8,
}

/// A user's bid: the USDC committed, the maximum FDV encrypted to the MPC cluster, and
/// what the settlement allocated to it.
#[derive(Debug)]
pub struct SealedBid {
    pub is_initialized: bool,
    pub sale: Pubkey,
    pub user: Pubkey,
    pub amount: u64,
    /// The user's x25519 public key.
    pub encryption_key: [u8; 32],
    pub bid_nonce: u128,
    pub encrypted_max_fdv: [u8; 32],
    /// 0 below the clearing bucket, 1 within it, 2 above it.
    pub bid_status: u8,
    pub allocation: u64,
    pub refund: u64,
    pub tokens: u64,
    pub claimed: bool,
    /// Whether the bid has been queued into the encrypted auction state.
    pub bid_submitted: bool,
    pub bid_checked: bool,
    pub commit_time: i64,
    pub bump: u8,
}

/// A revealed bid.
#[derive(Clone, Copy, Debug)]
pub struct RevealedBidData {
    pub bidder: Pubkey,
    pub amount: u64,
    pub max_fdv: u64,
    pub score: u32,
}

/// A batch of at most `MAX_BIDS_PER_BATCH` revealed bids.
#[derive(Debug)]
pub struct RevealedBidBatch {
    pub sale: Pubkey,
    pub batch_index: u16,
    pub bid_count: u16,
    pub verified: bool,
    pub bids: Vec<RevealedBidData>,
    pub bump: u8,
}

/// A revealed bid held in bid storage.
#[derive(Clone, Copy, Debug)]
pub struct RevealedBid {
    pub user: Pubkey,
    pub amount: u64,
    pub max_fdv: u64,
}

/// A chunk of revealed bids.
#[derive(Debug)]
pub struct BidStorage {
    pub sale: Pubkey,
    pub chunk_index: u32,
    pub total_chunks: u32,
    pub bids: Vec<RevealedBid>,
    pub is_finalized: bool,
    pub bump: u8,
}

} // verus!
