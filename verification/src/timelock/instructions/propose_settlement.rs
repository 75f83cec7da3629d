use vstd::prelude::*;

use crate::math::pro_rata_share;
use crate::program_error::ProgramError;
use crate::pubkey::Pubkey;
use crate::timelock::errors::{fail, Error, ErrorCode};
use crate::timelock::state::{Sale, SaleStatus, SealedBid};

verus! {

/// Seconds that must pass between two proposals.
pub const PROPOSAL_COOLDOWN_SECONDS: i64 = 60;

/// Seconds after the commitment window before the first proposal.
pub const INITIAL_PROPOSAL_DELAY_SECONDS: i64 = 30;

/// Seconds after the commitment phase ends during which only the authority may propose;
/// from then on anyone may, so that a sale cannot stay stuck waiting for the authority.
pub const AUTHORITY_PROPOSAL_WINDOW_SECONDS: i64 = 1800;

/// The accounts of a settlement proposal: the sale and the signer proposing.
pub struct ProposeSettlement {
    pub sale: Sale,
    pub proposer: Pubkey,
}

/// Statuses from which a settlement may be proposed (again).
pub open spec fn may_propose(status: SaleStatus) -> bool {
    ||| status == SaleStatus::Active
    ||| status == SaleStatus::CommitmentEnded
    ||| status == SaleStatus::Proposed
    ||| status == SaleStatus::Verifying
}

/// Why a proposal is refused, checked in this order; `None` when it is accepted.
pub open spec fn propose_settlement_failure(
    sale: Sale,
    proposer: Pubkey,
    now: i64,
    clearing_fdv: u64,
    fill_rate: u64,
    marginal_user: Option<Pubkey>,
    marginal_allocation: Option<u64>,
) -> Option<Error> {
    if !may_propose(sale.status) {
        Some(fail(ErrorCode::InvalidSaleStatus))
    } else if sale.commitment_ended_at + AUTHORITY_PROPOSAL_WINDOW_SECONDS > i64::MAX {
        Some(fail(ErrorCode::ArithmeticOverflow))
    } else if now < sale.commitment_ended_at + AUTHORITY_PROPOSAL_WINDOW_SECONDS && proposer@
        != sale.authority@ {
        Some(fail(ErrorCode::Unauthorized))
    } else if now <= sale.commitment_end {
        Some(fail(ErrorCode::CommitmentWindowNotEnded))
    } else if sale.last_proposal_time == 0 && sale.commitment_end + INITIAL_PROPOSAL_DELAY_SECONDS
        > i64::MAX {
        Some(fail(ErrorCode::ArithmeticOverflow))
    } else if sale.last_proposal_time == 0 && now < sale.commitment_end
        + INITIAL_PROPOSAL_DELAY_SECONDS {
        Some(fail(ErrorCode::InvalidTimestamps))
    } else if sale.last_proposal_time != 0 && sale.last_proposal_time + PROPOSAL_COOLDOWN_SECONDS
        > i64::MAX {
        Some(fail(ErrorCode::ArithmeticOverflow))
    } else if sale.last_proposal_time != 0 && now < sale.last_proposal_time
        + PROPOSAL_COOLDOWN_SECONDS {
        Some(fail(ErrorCode::InvalidTimestamps))
    } else if sale.total_users == 0 {
        Some(fail(ErrorCode::InsufficientDemand))
    } else if !sale.all_bids_revealed {
        Some(fail(ErrorCode::BidsNotRevealed))
    } else if clearing_fdv < sale.fdv_min || clearing_fdv > sale.fdv_max {
        Some(fail(ErrorCode::InvalidClearingFdv))
    } else if clearing_fdv == 0 {
        Some(fail(ErrorCode::DivisionByZero))
    } else if fill_rate == 0 || fill_rate > 10000 {
        Some(fail(ErrorCode::InvalidFillRate))
    } else if fill_rate == 10000 && sale.raise_max * 3 > u64::MAX {
        Some(fail(ErrorCode::ArithmeticOverflow))
    } else if fill_rate != 10000 && sale.raise_max * 11 > u64::MAX {
        Some(fail(ErrorCode::ArithmeticOverflow))
    } else if fill_rate != 10000 && crate::math::pro_rata(sale.total_committed, fill_rate)
        > sale.raise_max * 11 / 10 {
        Some(fail(ErrorCode::InvalidFillRate))
    } else if marginal_user is Some && marginal_allocation is None {
        Some(fail(ErrorCode::InvalidMarginalAllocation))
    } else if marginal_allocation matches Some(a) && a > sale.raise_max {
        Some(fail(ErrorCode::InvalidMarginalAllocation))
    } else if sale.settlement_nonce == u64::MAX {
        Some(fail(ErrorCode::ArithmeticOverflow))
    } else {
        None
    }
}

/// The sale after an accepted proposal: a new proposal number, the proposed terms, and the
/// verification tally reset.
pub open spec fn proposed(
    sale: Sale,
    proposer: Pubkey,
    now: i64,
    clearing_fdv: u64,
    fill_rate: u64,
    marginal_user: Option<Pubkey>,
    marginal_allocation: Option<u64>,
) -> Sale {
    Sale {
        settlement_nonce: (sale.settlement_nonce + 1) as u64,
        clearing_fdv: Some(clearing_fdv),
        fill_rate: Some(fill_rate),
        marginal_user: marginal_user,
        marginal_allocation: marginal_allocation,
        proposer: Some(proposer),
        verification_count: 0,
        running_sum: 0,
        marginal_user_verified: false,
        last_proposal_time: now,
        status: SaleStatus::Proposed,
        ..sale
    }
}

/// Proposes a clearing FDV and a fill rate (in basis points, 10000 = 100%), and optionally a
/// marginal bidder with a partial allocation. For `AUTHORITY_PROPOSAL_WINDOW_SECONDS` after
/// the commitment phase ends only the authority may propose; after that, any signer. Each
/// accepted proposal starts a new round of verification.
pub fn handler_propose_settlement(
    ctx: &mut ProposeSettlement,
    now: i64,
    clearing_fdv: u64,
    fill_rate: u64,
    marginal_user: Option<Pubkey>,
    marginal_allocation: Option<u64>,
) -> (r: Result<(), Error>)
    ensures
        final(ctx).proposer == old(ctx).proposer,
        match r {
            Ok(()) => propose_settlement_failure(
                old(ctx).sale,
                old(ctx).proposer,
                now,
                clearing_fdv,
                fill_rate,
                marginal_user,
                marginal_allocation,
            ) is None && final(ctx).sale == proposed(
                old(ctx).sale,
                old(ctx).proposer,
                now,
                clearing_fdv,
                fill_rate,
                marginal_user,
                marginal_allocation,
            ),
            Err(e) => propose_settlement_failure(
                old(ctx).sale,
                old(ctx).proposer,
                now,
                clearing_fdv,
                fill_rate,
                marginal_user,
                marginal_allocation,
            ) == Some(e) && final(ctx).sale == old(ctx).sale,
        },
{
    let status = ctx.sale.status;
    if !(status == SaleStatus::Active || status == SaleStatus::CommitmentEnded || status
        == SaleStatus::Proposed || status == SaleStatus::Verifying) {
        return Err(ProgramError::Custom(ErrorCode::InvalidSaleStatus));
    }
    let authority_window_end = match ctx.sale.commitment_ended_at.checked_add(
        AUTHORITY_PROPOSAL_WINDOW_SECONDS,
    ) {
        Some(t) => t,
        None => return Err(ProgramError::Custom(ErrorCode::ArithmeticOverflow)),
    };
    if now < authority_window_end && !ctx.proposer.same_as(&ctx.sale.authority) {
        return Err(ProgramError::Custom(ErrorCode::Unauthorized));
    }
    if now <= ctx.sale.commitment_end {
        return Err(ProgramError::Custom(ErrorCode::CommitmentWindowNotEnded));
    }
    if ctx.sale.last_proposal_time == 0 {
        let min_proposal_time = match ctx.sale.commitment_end.checked_add(
            INITIAL_PROPOSAL_DELAY_SECONDS,
        ) {
            Some(t) => t,
            None => return Err(ProgramError::Custom(ErrorCode::ArithmeticOverflow)),
        };
        if now < min_proposal_time {
            return Err(ProgramError::Custom(ErrorCode::InvalidTimestamps));
        }
    } else {
        let min_proposal_time = match ctx.sale.last_proposal_time.checked_add(
            PROPOSAL_COOLDOWN_SECONDS,
        ) {
            Some(t) => t,
            None => return Err(ProgramError::Custom(ErrorCode::ArithmeticOverflow)),
        };
        if now < min_proposal_time {
            return Err(ProgramError::Custom(ErrorCode::InvalidTimestamps));
        }
    }
    if ctx.sale.total_users == 0 {
        return Err(ProgramError::Custom(ErrorCode::InsufficientDemand));
    }
    if !ctx.sale.all_bids_revealed {
        return Err(ProgramError::Custom(ErrorCode::BidsNotRevealed));
    }
    if clearing_fdv < ctx.sale.fdv_min || clearing_fdv > ctx.sale.fdv_max {
        return Err(ProgramError::Custom(ErrorCode::InvalidClearingFdv));
    }
    if clearing_fdv == 0 {
        return Err(ProgramError::Custom(ErrorCode::DivisionByZero));
    }
    if fill_rate == 0 || fill_rate > 10000 {
        return Err(ProgramError::Custom(ErrorCode::InvalidFillRate));
    }
    if fill_rate == 10000 {
        // 1.5x raise_max: a high total is only worth a warning, but the product must fit.
        if ctx.sale.raise_max.checked_mul(3).is_none() {
            return Err(ProgramError::Custom(ErrorCode::ArithmeticOverflow));
        }
    } else {
        let expected_max_raise = pro_rata_share(ctx.sale.total_committed, fill_rate);
        let raise_max_times_11 = match ctx.sale.raise_max.checked_mul(11) {
            Some(v) => v,
            None => return Err(ProgramError::Custom(ErrorCode::ArithmeticOverflow)),
        };
        let raise_max_with_tolerance = raise_max_times_11 / 10;
        if expected_max_raise > raise_max_with_tolerance as u128 {
            return Err(ProgramError::Custom(ErrorCode::InvalidFillRate));
        }
    }
    if marginal_user.is_some() && marginal_allocation.is_none() {
        return Err(ProgramError::Custom(ErrorCode::InvalidMarginalAllocation));
    }
    if let Some(alloc) = marginal_allocation {
        if alloc > ctx.sale.raise_max {
            return Err(ProgramError::Custom(ErrorCode::InvalidMarginalAllocation));
        }
    }
    let nonce = match ctx.sale.settlement_nonce.checked_add(1) {
        Some(n) => n,
        None => return Err(ProgramError::Custom(ErrorCode::ArithmeticOverflow)),
    };
    ctx.sale.settlement_nonce = nonce;
    ctx.sale.clearing_fdv = Some(clearing_fdv);
    ctx.sale.fill_rate = Some(fill_rate);
    ctx.sale.marginal_user = marginal_user;
    ctx.sale.marginal_allocation = marginal_allocation;
    ctx.sale.proposer = Some(ctx.proposer);
    ctx.sale.verification_count = 0;
    ctx.sale.running_sum = 0;
    ctx.sale.marginal_user_verified = false;
    ctx.sale.last_proposal_time = now;
    ctx.sale.status = SaleStatus::Proposed;
    Ok(())
}

/// An accepted proposal starts verification afresh: the tally is back at zero, the proposal
/// number grows, and no bid verified against an earlier proposal counts as verified for it.
pub proof fn law_new_proposal_restarts_verification(
    sale: Sale,
    proposer: Pubkey,
    now: i64,
    clearing_fdv: u64,
    fill_rate: u64,
    marginal_user: Option<Pubkey>,
    marginal_allocation: Option<u64>,
    bid: SealedBid,
)
    requires
        propose_settlement_failure(
            sale,
            proposer,
            now,
            clearing_fdv,
            fill_rate,
            marginal_user,
            marginal_allocation,
        ) is None,
        bid.verified_for_nonce <= sale.settlement_nonce,
    ensures
        ({
            let next = proposed(
                sale,
                proposer,
                now,
                clearing_fdv,
                fill_rate,
                marginal_user,
                marginal_allocation,
            );
            &&& next.running_sum == 0
            &&& next.verification_count == 0
            &&& !next.marginal_user_verified
            &&& next.settlement_nonce > sale.settlement_nonce
            &&& bid.verified_for_nonce != next.settlement_nonce
        }),
{
}

/// Who may propose: during the authority's window a signer other than the authority is
/// refused with `Unauthorized`; once the window has passed, every signer is treated alike,
/// so the sale cannot stay stuck waiting for the authority.
pub proof fn law_anyone_may_propose_after_authority_window(
    sale: Sale,
    signer: Pubkey,
    other: Pubkey,
    now: i64,
    clearing_fdv: u64,
    fill_rate: u64,
    marginal_user: Option<Pubkey>,
    marginal_allocation: Option<u64>,
)
    ensures
        may_propose(sale.status) && sale.commitment_ended_at + AUTHORITY_PROPOSAL_WINDOW_SECONDS
            <= i64::MAX && now < sale.commitment_ended_at + AUTHORITY_PROPOSAL_WINDOW_SECONDS
            && signer@ != sale.authority@ ==> propose_settlement_failure(
            sale,
            signer,
            now,
            clearing_fdv,
            fill_rate,
            marginal_user,
            marginal_allocation,
        ) == Some(fail(ErrorCode::Unauthorized)),
        now >= sale.commitment_ended_at + AUTHORITY_PROPOSAL_WINDOW_SECONDS ==> propose_settlement_failure(
            sale,
            signer,
            now,
            clearing_fdv,
            fill_rate,
            marginal_user,
            marginal_allocation,
        ) == propose_settlement_failure(
            sale,
            other,
            now,
            clearing_fdv,
            fill_rate,
            marginal_user,
            marginal_allocation,
        ),
{
}

/// Two accepted proposals in a row, with any instructions between them that leave the
/// proposal time and number alone, are at least the cooldown apart; the proposal number
/// grows, and the second proposal's tally starts at zero. (A first proposal at time 0 is
/// not followed by a cooldown.)
pub proof fn law_successive_proposals(
    sale: Sale,
    first_proposer: Pubkey,
    t1: i64,
    fdv1: u64,
    rate1: u64,
    user1: Option<Pubkey>,
    alloc1: Option<u64>,
    between: Sale,
    second_proposer: Pubkey,
    t2: i64,
    fdv2: u64,
    rate2: u64,
    user2: Option<Pubkey>,
    alloc2: Option<u64>,
)
    requires
        propose_settlement_failure(sale, first_proposer, t1, fdv1, rate1, user1, alloc1) is None,
        t1 != 0,
        between.last_proposal_time == proposed(
            sale,
            first_proposer,
            t1,
            fdv1,
            rate1,
            user1,
            alloc1,
        ).last_proposal_time,
        between.settlement_nonce == proposed(
            sale,
            first_proposer,
            t1,
            fdv1,
            rate1,
            user1,
            alloc1,
        ).settlement_nonce,
        propose_settlement_failure(between, second_proposer, t2, fdv2, rate2, user2, alloc2) is None,
    ensures
        t2 >= t1 + PROPOSAL_COOLDOWN_SECONDS,
        proposed(between, second_proposer, t2, fdv2, rate2, user2, alloc2).settlement_nonce
            > proposed(sale, first_proposer, t1, fdv1, rate1, user1, alloc1).settlement_nonce,
        proposed(between, second_proposer, t2, fdv2, rate2, user2, alloc2).running_sum == 0,
        proposed(between, second_proposer, t2, fdv2, rate2, user2, alloc2).verification_count == 0,
{
}

/// What an accepted proposal promises: its clearing FDV lies within the sale's FDV range,
/// its fill rate is between one basis point and 100%, a named marginal bidder comes with a
/// marginal allocation of at most the maximum raise, and it is made after the commitment
/// window, by the authority while the authority's window lasts.
pub proof fn law_accepted_proposal_is_within_the_sale_terms(
    sale: Sale,
    proposer: Pubkey,
    now: i64,
    clearing_fdv: u64,
    fill_rate: u64,
    marginal_user: Option<Pubkey>,
    marginal_allocation: Option<u64>,
)
    requires
        propose_settlement_failure(
            sale,
            proposer,
            now,
            clearing_fdv,
            fill_rate,
            marginal_user,
            marginal_allocation,
        ) is None,
    ensures
        sale.fdv_min <= clearing_fdv <= sale.fdv_max,
        0 < clearing_fdv,
        1 <= fill_rate <= 10000,
        marginal_user is Some ==> marginal_allocation is Some,
        marginal_allocation matches Some(a) ==> a <= sale.raise_max,
        now > sale.commitment_end,
        now < sale.commitment_ended_at + AUTHORITY_PROPOSAL_WINDOW_SECONDS ==> proposer@ == sale.authority@,
        sale.total_users > 0,
        sale.all_bids_revealed,
{
}

} // verus!
