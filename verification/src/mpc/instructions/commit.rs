use vstd::prelude::*;

use crate::merkle::{compute_merkle_leaf, merkle_leaf, proof_root, proof_view, verify_merkle_proof};
use crate::mpc::errors::{fail, Error, ErrorCode};
use crate::mpc::state::{Sale, SaleStatus, SealedBid};
use crate::program_error::ProgramError;
use crate::pubkey::Pubkey;

verus! {

/// Deepest score proof accepted.
pub const MAX_MERKLE_PROOF_DEPTH: usize = 32;

/// Most users one sale takes.
pub const MAX_USERS_PER_SALE: u32 = 10_000;

/// The accounts of a commitment: the sale and its address, the user's bid (all zero when
/// the account is new), the signing user, the mint and owner of the user's USDC account,
/// the USDC vault, the USDC mint, and the bump seed of the bid's address.
pub struct Commit {
    pub sale: Sale,
    pub sale_key: Pubkey,
    pub sealed_bid: SealedBid,
    pub user: Pubkey,
    pub user_usdc_account_mint: Pubkey,
    pub user_usdc_account_owner: Pubkey,
    pub usdc_vault: Pubkey,
    pub usdc_mint: Pubkey,
    pub sealed_bid_bump: u8,
}

/// An encrypted bid: the ciphertext of the maximum FDV, its nonce, and the user's key.
#[derive(Clone, Copy, Debug)]
pub struct EncryptedBid {
    pub encrypted_max_fdv: [u8; 32],
    pub bid_nonce: u128,
    pub encryption_key: [u8; 32],
}

/// The USDC committed by the bid once `amount` is added; a new bid starts from zero.
pub open spec fn committed_amount(bid: SealedBid, amount: u64) -> int {
    if bid.is_initialized {
        bid.amount + amount
    } else {
        amount as int
    }
}

/// Why a commitment fails, checked in this order; `None` when it is taken.
pub open spec fn commit_failure(
    ctx: Commit,
    now: i64,
    amount: u64,
    score: u32,
    score_proof: Seq<[u8; 32]>,
) -> Option<Error> {
    let sale = ctx.sale;
    let bid = ctx.sealed_bid;
    if sale.status != SaleStatus::Active || sale.is_paused {
        Some(fail(ErrorCode::SaleNotActive))
    } else if ctx.user_usdc_account_mint@ != ctx.usdc_mint@ || ctx.user_usdc_account_owner@
        != ctx.user@ {
        Some(fail(ErrorCode::InvalidParameters))
    } else if ctx.usdc_vault@ != sale.usdc_vault@ || ctx.usdc_mint@ != sale.usdc_mint@ {
        Some(fail(ErrorCode::InvalidParameters))
    } else if score_proof.len() > MAX_MERKLE_PROOF_DEPTH {
        Some(fail(ErrorCode::InvalidMerkleProof))
    } else if now < sale.commitment_start {
        Some(fail(ErrorCode::OutsideCommitmentWindow))
    } else if now > sale.commitment_end {
        Some(fail(ErrorCode::CommitmentWindowClosed))
    } else if proof_root(merkle_leaf(ctx.user@, score), proof_view(score_proof))
        != sale.score_merkle_root@ {
        Some(fail(ErrorCode::InvalidScoreProof))
    } else if amount == 0 || amount < sale.min_commitment {
        Some(fail(ErrorCode::InvalidAmount))
    } else if !bid.is_initialized && sale.total_users >= MAX_USERS_PER_SALE {
        Some(fail(ErrorCode::CapacityExceeded))
    } else if bid.is_initialized && (bid.sale@ != ctx.sale_key@ || bid.user@ != ctx.user@) {
        Some(fail(ErrorCode::InvalidParameters))
    } else if bid.is_initialized && bid.claimed {
        Some(fail(ErrorCode::AlreadyClaimed))
    } else if committed_amount(bid, amount) > u64::MAX {
        Some(fail(ErrorCode::ArithmeticOverflow))
    } else if committed_amount(bid, amount) > sale.raise_max {
        Some(fail(ErrorCode::InvalidAmount))
    } else if sale.total_committed + amount > u64::MAX {
        Some(fail(ErrorCode::ArithmeticOverflow))
    } else {
        None
    }
}

/// The bid after a commitment: a new bid is set up for the user with the encrypted maximum
/// FDV; either way the amount is added.
pub open spec fn committed_bid(ctx: Commit, now: i64, amount: u64, encrypted: EncryptedBid) -> SealedBid {
    let bid = ctx.sealed_bid;
    let base = if bid.is_initialized {
        bid
    } else {
        SealedBid {
            is_initialized: true,
            sale: ctx.sale_key,
            user: ctx.user,
            commit_time: now,
            bump: ctx.sealed_bid_bump,
            bid_status: 0,
            claimed: false,
            bid_submitted: false,
            bid_checked: false,
            allocation: 0,
            refund: 0,
            tokens: 0,
            encryption_key: encrypted.encryption_key,
            bid_nonce: encrypted.bid_nonce,
            encrypted_max_fdv: encrypted.encrypted_max_fdv,
            ..bid
        }
    };
    SealedBid { amount: committed_amount(bid, amount) as u64, ..base }
}

/// The sale after a commitment: the amount counted, and a new user counted.
pub open spec fn committed_sale(ctx: Commit, amount: u64) -> Sale {
    Sale {
        total_users: if ctx.sealed_bid.is_initialized {
            ctx.sale.total_users
        } else {
            (ctx.sale.total_users + 1) as u32
        },
        total_committed: (ctx.sale.total_committed + amount) as u64,
        ..ctx.sale
    }
}

/// A whitelisted user commits `amount` USDC with an encrypted bid during the commitment
/// window; later commitments add to the same bid. On success the result is the USDC to move
/// from the user to the vault.
pub fn handler_commit(
    ctx: &mut Commit,
    now: i64,
    amount: u64,
    encrypted: EncryptedBid,
    score: u32,
    score_proof: &Vec<[u8; 32]>,
) -> (r: Result<u64, Error>)
    ensures
        final(ctx).sale_key == old(ctx).sale_key,
        final(ctx).user == old(ctx).user,
        match r {
            Ok(transfer) => commit_failure(*old(ctx), now, amount, score, score_proof@) is None
                && transfer == amount && final(ctx).sealed_bid == committed_bid(
                *old(ctx),
                now,
                amount,
                encrypted,
            ) && final(ctx).sale == committed_sale(*old(ctx), amount),
            Err(e) => commit_failure(*old(ctx), now, amount, score, score_proof@) == Some(e)
                && final(ctx).sale == old(ctx).sale && final(ctx).sealed_bid == old(ctx).sealed_bid,
        },
{
    if ctx.sale.status != SaleStatus::Active || ctx.sale.is_paused {
        return Err(ProgramError::Custom(ErrorCode::SaleNotActive));
    }
    if !ctx.user_usdc_account_mint.same_as(&ctx.usdc_mint) || !ctx.user_usdc_account_owner.same_as(
        &ctx.user,
    ) {
        return Err(ProgramError::Custom(ErrorCode::InvalidParameters));
    }
    if !ctx.usdc_vault.same_as(&ctx.sale.usdc_vault) || !ctx.usdc_mint.same_as(&ctx.sale.usdc_mint) {
        return Err(ProgramError::Custom(ErrorCode::InvalidParameters));
    }
    if score_proof.len() > MAX_MERKLE_PROOF_DEPTH {
        return Err(ProgramError::Custom(ErrorCode::InvalidMerkleProof));
    }
    if now < ctx.sale.commitment_start {
        return Err(ProgramError::Custom(ErrorCode::OutsideCommitmentWindow));
    }
    if now > ctx.sale.commitment_end {
        return Err(ProgramError::Custom(ErrorCode::CommitmentWindowClosed));
    }
    let leaf = compute_merkle_leaf(&ctx.user, score);
    let valid: bool = match verify_merkle_proof::<Error>(
        &ctx.sale.score_merkle_root,
        &leaf,
        score_proof.as_slice(),
    ) {
        Ok(v) => v,
        Err(e) => return Err(e),
    };
    if !valid {
        return Err(ProgramError::Custom(ErrorCode::InvalidScoreProof));
    }
    if amount == 0 || amount < ctx.sale.min_commitment {
        return Err(ProgramError::Custom(ErrorCode::InvalidAmount));
    }
    let is_new = !ctx.sealed_bid.is_initialized;
    if is_new {
        if ctx.sale.total_users >= MAX_USERS_PER_SALE {
            return Err(ProgramError::Custom(ErrorCode::CapacityExceeded));
        }
    } else {
        if !ctx.sealed_bid.sale.same_as(&ctx.sale_key) || !ctx.sealed_bid.user.same_as(&ctx.user) {
            return Err(ProgramError::Custom(ErrorCode::InvalidParameters));
        }
        if ctx.sealed_bid.claimed {
            return Err(ProgramError::Custom(ErrorCode::AlreadyClaimed));
        }
    }
    let base: u64 = if is_new {
        0
    } else {
        ctx.sealed_bid.amount
    };
    let new_amount = match base.checked_add(amount) {
        Some(v) => v,
        None => return Err(ProgramError::Custom(ErrorCode::ArithmeticOverflow)),
    };
    if new_amount > ctx.sale.raise_max {
        return Err(ProgramError::Custom(ErrorCode::InvalidAmount));
    }
    let total_committed = match ctx.sale.total_committed.checked_add(amount) {
        Some(v) => v,
        None => return Err(ProgramError::Custom(ErrorCode::ArithmeticOverflow)),
    };
    if is_new {
        ctx.sealed_bid.is_initialized = true;
        ctx.sealed_bid.sale = ctx.sale_key;
        ctx.sealed_bid.user = ctx.user;
        ctx.sealed_bid.commit_time = now;
        ctx.sealed_bid.bump = ctx.sealed_bid_bump;
        ctx.sealed_bid.bid_status = 0;
        ctx.sealed_bid.claimed = false;
        ctx.sealed_bid.bid_submitted = false;
        ctx.sealed_bid.bid_checked = false;
        ctx.sealed_bid.allocation = 0;
        ctx.sealed_bid.refund = 0;
        ctx.sealed_bid.tokens = 0;
        ctx.sealed_bid.encryption_key = encrypted.encryption_key;
        ctx.sealed_bid.bid_nonce = encrypted.bid_nonce;
        ctx.sealed_bid.encrypted_max_fdv = encrypted.encrypted_max_fdv;
        ctx.sale.total_users = ctx.sale.total_users + 1;
    }
    ctx.sealed_bid.amount = new_amount;
    ctx.sale.total_committed = total_committed;
    Ok(amount)
}

} // verus!
