use vstd::prelude::*;

use crate::program_error::{data_error, from_data_error, AccountDataError, ProgramError};
use crate::pubkey::Pubkey;

verus! {

/// Where a sale stands in its lifecycle.
#[derive(Clone, Copy, Debug, PartialEq, Eq, Structural)]
pub enum SaleStatus {
    Initialized,
    Active,
    CommitmentEnded,
    Revealing,
    Proposed,
    Verifying,
    Settled,
    Finalized,
    Cancelled,
    Refunding,
}

/// A token sale: its configuration, the commitments it has taken and its settlement.
#[derive(Debug)]
pub struct Sale {
    pub authority: Pubkey,
    pub token_mint: Pubkey,
    /// USDC mint, checked on every USDC transfer.
    pub usdc_mint: Pubkey,
    pub usdc_vault: Pubkey,
    pub token_vault: Pubkey,
    /// Fixed destination of the raised USDC.
    pub usdc_treasury: Pubkey,
    /// Total token supply.
    pub token_supply: u64,
    /// Share of the supply that is sold, in basis points (2500 = 25%).
    pub supply_percentage: u16,
    /// Least USDC the sale must raise.
    pub raise_min: u64,
    /// Most USDC the sale may raise.
    pub raise_max: u64,
    pub fdv_min: u64,
    pub fdv_max: u64,
    /// Least USDC per commitment.
    pub min_commitment: u64,
    pub commitment_start: i64,
    pub commitment_end: i64,
    /// Root of the Merkle tree of user scores.
    pub score_merkle_root: [u8; 32],
    /// Proposed clearing FDV.
    pub clearing_fdv: Option<u64>,
    /// Sum of the cleared commitments once settled.
    pub total_cleared_commits: Option<u64>,
    /// Pro-rata fill rate of an oversubscribed sale, in basis points.
    pub fill_rate: Option<u64>,
    pub marginal_user: Option<Pubkey>,
    pub marginal_allocation: Option<u64>,
    pub marginal_user_verified: bool,
    pub proposer: Option<Pubkey>,
    /// Bids verified against the current proposal.
    pub verification_count: u32,
    /// Number of commitments.
    pub total_users: u32,
    /// USDC committed in all.
    pub total_committed: u64,
    /// Allocations verified against the current proposal, summed.
    pub running_sum: u64,
    /// Number of the current proposal.
    pub settlement_nonce: u64,
    pub last_proposal_time: i64,
    pub status: SaleStatus,
    pub is_paused: bool,
    pub claims_enabled: bool,
    /// Drand round after which the bids can be decrypted.
    pub drand_reveal_round: u64,
    pub drand_chain_hash: [u8; 8],
    pub reveal_count: u32,
    pub all_bids_revealed: bool,
    /// When the last bid was revealed.
    pub commitment_ended_at: i64,
    pub name: String,
    pub created_at: i64,
    pub bump: u8,
}

/// A user's sealed bid: the USDC committed, the timelock-encrypted maximum FDV, its reveal,
/// and what the settlement allocated to it.
#[derive(Debug)]
pub struct SealedBid {
    pub is_initialized: bool,
    pub sale: Pubkey,
    pub user: Pubkey,
    /// USDC committed.
    pub amount: u64,
    /// `sha256(max_fdv as little-endian u64 || salt)`.
    pub hash_commitment: [u8; 32],
    /// Timelock ciphertext of the bid.
    pub max_fdv_encrypted: Option<Vec<u8>>,
    /// The bid, once revealed.
    pub max_fdv_plaintext: Option<u64>,
    /// Drand round the bid was encrypted to.
    pub drand_round: u64,
    pub bid_revealed: bool,
    pub cleared: bool,
    pub is_marginal: bool,
    /// USDC used.
    pub allocation: u64,
    /// USDC returned.
    pub refund: u64,
    /// Tokens allocated.
    pub tokens: u64,
    pub claimed: bool,
    /// Number of the proposal this bid was last verified against.
    pub verified_for_nonce: u64,
    pub commit_time: i64,
    pub bump: u8,
}

/// A user's commitment with a visible or encrypted bid.
#[derive(Debug)]
pub struct UserCommitment {
    pub sale: Pubkey,
    pub user: Pubkey,
    pub amount: u64,
    pub max_fdv_encrypted: Option<Vec<u8>>,
    pub encryption_pubkey: Option<Pubkey>,
    pub max_fdv_plaintext: Option<u64>,
    pub cleared: bool,
    pub is_marginal: bool,
    pub allocation: u64,
    pub refund: u64,
    pub tokens: u64,
    pub claimed: bool,
    pub commit_time: i64,
    pub bump: u8,
}

/// An account passed to a batch instruction: its address, its owning program, its
/// lamports, and its data read as a sealed bid (or how that reading fails).
#[derive(Debug)]
pub struct BidAccount {
    pub key: Pubkey,
    pub owner: Pubkey,
    pub lamports: u64,
    pub bid: Result<SealedBid, AccountDataError>,
}

/// Whether a key is the system program's (all zero bytes).
pub open spec fn is_system_program(key: Pubkey) -> bool {
    key@ == Seq::new(32, |_i: int| 0u8)
}

/// Loading an account as a sealed bid of the program `program_id`: an empty system account
/// is not initialized, an account of another program is refused, and otherwise its data
/// must read as a sealed bid.
pub open spec fn read_bid<E>(account: BidAccount, program_id: Pubkey) -> Result<SealedBid, ProgramError<E>> {
    if is_system_program(account.owner) && account.lamports == 0 {
        Err(ProgramError::AccountNotInitialized)
    } else if account.owner@ != program_id@ {
        Err(ProgramError::AccountOwnedByWrongProgram)
    } else {
        match account.bid {
            Ok(bid) => Ok(bid),
            Err(e) => Err(data_error::<E>(e)),
        }
    }
}

/// Loads an account as a sealed bid of the program `program_id`.
pub fn load_bid<'a, E>(account: &'a BidAccount, program_id: &Pubkey) -> (r: Result<&'a SealedBid, ProgramError<E>>)
    ensures
        match r {
            Ok(bid) => account.bid == Ok::<SealedBid, AccountDataError>(*bid) && read_bid::<E>(*account, *program_id)
                == Ok::<SealedBid, ProgramError<E>>(*bid),
            Err(e) => read_bid::<E>(*account, *program_id) == Err::<SealedBid, ProgramError<E>>(e),
        },
{
    if account.lamports == 0 && is_zero_key(&account.owner) {
        return Err(ProgramError::AccountNotInitialized);
    }
    if !account.owner.same_as(program_id) {
        return Err(ProgramError::AccountOwnedByWrongProgram);
    }
    match &account.bid {
        Ok(bid) => Ok(bid),
        Err(e) => Err(from_data_error(*e)),
    }
}

/// Whether all bytes of a key are zero.
fn is_zero_key(key: &Pubkey) -> (r: bool)
    ensures
        r == is_system_program(*key),
{
    let mut i: usize = 0;
    while i < 32
        invariant
            0 <= i <= 32,
            key@.len() == 32,
            forall|j: int| 0 <= j < i ==> key@[j] == 0u8,
        decreases 32 - i,
    {
        if key.0[i] != 0 {
            return false;
        }
        i = i + 1;
    }
    assert(key@ =~= Seq::new(32, |_i: int| 0u8));
    true
}

/// Seed prefix of sealed-bid addresses: `b"sealed_bid"`.
pub const SEALED_BID_SEED: [u8; 10] = [115, 101, 97, 108, 101, 100, 95, 98, 105, 100];

} // verus!
