use vstd::prelude::*;

use crate::program_error::ProgramError;
use crate::pubkey::Pubkey;
use crate::timelock::drand::{round_at, timestamp_to_round, QUICKNET_CHAIN_HASH};
use crate::timelock::errors::{fail, Error, ErrorCode};
use crate::timelock::state::{Sale, SaleStatus};

verus! {

/// Least USDC per commitment: $5 with 6 decimals.
pub const MIN_COMMITMENT: u64 = 5_000_000;

/// Shortest commitment window: 15 minutes.
pub const MIN_COMMITMENT_WINDOW_SECONDS: i64 = 900;

/// The accounts of a new sale: the authority, the two mints, the two vaults, the USDC
/// treasury that will receive the raise, and the bump seed of the sale's address.
pub struct InitializeSale {
    pub authority: Pubkey,
    pub token_mint: Pubkey,
    pub usdc_mint: Pubkey,
    pub usdc_vault: Pubkey,
    pub token_vault: Pubkey,
    pub usdc_treasury: Pubkey,
    pub sale_bump: u8,
}

/// The terms of a new sale.
pub struct SaleTerms {
    pub token_supply: u64,
    pub supply_percentage: u16,
    pub raise_min: u64,
    pub raise_max: u64,
    pub fdv_min: u64,
    pub fdv_max: u64,
    pub commitment_start: i64,
    pub commitment_end: i64,
    pub score_merkle_root: [u8; 32],
}

/// Why a sale cannot be created at time `now`, checked in this order; `None` when it can.
pub open spec fn initialize_sale_failure(terms: SaleTerms, now: i64) -> Option<Error> {
    if terms.raise_min == 0 || terms.raise_min > terms.raise_max || terms.raise_max == 0 {
        Some(fail(ErrorCode::InvalidRaiseRange))
    } else if terms.supply_percentage > 10000 || terms.supply_percentage == 0 {
        Some(fail(ErrorCode::InvalidSupplyRange))
    } else if terms.fdv_min > terms.fdv_max || terms.fdv_min == 0 || terms.fdv_max == 0 {
        Some(fail(ErrorCode::InvalidFdvRange))
    } else if terms.commitment_start >= terms.commitment_end {
        Some(fail(ErrorCode::InvalidTiming))
    } else if terms.token_supply == 0 {
        Some(fail(ErrorCode::InvalidParameters))
    } else if terms.commitment_end - terms.commitment_start > i64::MAX {
        Some(fail(ErrorCode::ArithmeticOverflow))
    } else if terms.commitment_end - terms.commitment_start < MIN_COMMITMENT_WINDOW_SECONDS {
        Some(fail(ErrorCode::CommitmentWindowTooShort))
    } else if terms.commitment_start <= now || terms.commitment_end <= now {
        Some(fail(ErrorCode::InvalidTimestamps))
    } else {
        None
    }
}

/// A new sale: the given terms, the treasury fixed for good, nothing committed or proposed
/// yet, and bids revealed at the first drand round after the commitment window. Fields that
/// the instruction does not set keep the zero value of a fresh account.
pub open spec fn initial_sale(ctx: InitializeSale, name: String, terms: SaleTerms, now: i64) -> Sale {
    Sale {
        authority: ctx.authority,
        token_mint: ctx.token_mint,
        usdc_mint: ctx.usdc_mint,
        usdc_vault: ctx.usdc_vault,
        token_vault: ctx.token_vault,
        usdc_treasury: ctx.usdc_treasury,
        token_supply: terms.token_supply,
        supply_percentage: terms.supply_percentage,
        raise_min: terms.raise_min,
        raise_max: terms.raise_max,
        fdv_min: terms.fdv_min,
        fdv_max: terms.fdv_max,
        min_commitment: MIN_COMMITMENT,
        commitment_start: terms.commitment_start,
        commitment_end: terms.commitment_end,
        score_merkle_root: terms.score_merkle_root,
        clearing_fdv: None,
        total_cleared_commits: None,
        fill_rate: None,
        marginal_user: None,
        marginal_allocation: None,
        marginal_user_verified: false,
        proposer: None,
        verification_count: 0,
        total_users: 0,
        total_committed: 0,
        running_sum: 0,
        settlement_nonce: 0,
        last_proposal_time: 0,
        status: SaleStatus::Initialized,
        is_paused: false,
        claims_enabled: false,
        drand_reveal_round: round_at(terms.commitment_end as int) as u64,
        drand_chain_hash: QUICKNET_CHAIN_HASH,
        reveal_count: 0,
        all_bids_revealed: false,
        commitment_ended_at: 0,
        name: name,
        created_at: now,
        bump: ctx.sale_bump,
    }
}

/// Creates a sale at time `now`, after checking its ranges and its commitment window.
pub fn handler_initialize_sale(ctx: &InitializeSale, name: String, terms: SaleTerms, now: i64) -> (r:
    Result<Sale, Error>)
    ensures
        match r {
            Ok(sale) => initialize_sale_failure(terms, now) is None && sale == initial_sale(
                *ctx,
                name,
                terms,
                now,
            ),
            Err(e) => initialize_sale_failure(terms, now) == Some(e),
        },
{
    if terms.raise_min == 0 || terms.raise_min > terms.raise_max || terms.raise_max == 0 {
        return Err(ProgramError::Custom(ErrorCode::InvalidRaiseRange));
    }
    if terms.supply_percentage > 10000 || terms.supply_percentage == 0 {
        return Err(ProgramError::Custom(ErrorCode::InvalidSupplyRange));
    }
    if terms.fdv_min > terms.fdv_max || terms.fdv_min == 0 || terms.fdv_max == 0 {
        return Err(ProgramError::Custom(ErrorCode::InvalidFdvRange));
    }
    if terms.commitment_start >= terms.commitment_end {
        return Err(ProgramError::Custom(ErrorCode::InvalidTiming));
    }
    if terms.token_supply == 0 {
        return Err(ProgramError::Custom(ErrorCode::InvalidParameters));
    }
    let commitment_duration = match terms.commitment_end.checked_sub(terms.commitment_start) {
        Some(d) => d,
        None => return Err(ProgramError::Custom(ErrorCode::ArithmeticOverflow)),
    };
    if commitment_duration < MIN_COMMITMENT_WINDOW_SECONDS {
        return Err(ProgramError::Custom(ErrorCode::CommitmentWindowTooShort));
    }
    if terms.commitment_start <= now || terms.commitment_end <= now {
        return Err(ProgramError::Custom(ErrorCode::InvalidTimestamps));
    }
    Ok(
        Sale {
            authority: ctx.authority,
            token_mint: ctx.token_mint,
            usdc_mint: ctx.usdc_mint,
            usdc_vault: ctx.usdc_vault,
            token_vault: ctx.token_vault,
            usdc_treasury: ctx.usdc_treasury,
            token_supply: terms.token_supply,
            supply_percentage: terms.supply_percentage,
            raise_min: terms.raise_min,
            raise_max: terms.raise_max,
            fdv_min: terms.fdv_min,
            fdv_max: terms.fdv_max,
            min_commitment: MIN_COMMITMENT,
            commitment_start: terms.commitment_start,
            commitment_end: terms.commitment_end,
            score_merkle_root: terms.score_merkle_root,
            clearing_fdv: None,
            total_cleared_commits: None,
            fill_rate: None,
            marginal_user: None,
            marginal_allocation: None,
            marginal_user_verified: false,
            proposer: None,
            verification_count: 0,
            total_users: 0,
            total_committed: 0,
            running_sum: 0,
            settlement_nonce: 0,
            last_proposal_time: 0,
            status: SaleStatus::Initialized,
            is_paused: false,
            claims_enabled: false,
            drand_reveal_round: timestamp_to_round(terms.commitment_end),
            drand_chain_hash: QUICKNET_CHAIN_HASH,
            reveal_count: 0,
            all_bids_revealed: false,
            commitment_ended_at: 0,
            name: name,
            created_at: now,
            bump: ctx.sale_bump,
        },
    )
}

} // verus!
