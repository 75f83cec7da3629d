use vstd::prelude::*;

use crate::math::{calculate_tokens, pro_rata, pro_rata_share, tokens_for};
use crate::program_error::ProgramError;
use crate::pubkey::{holds_key, option_holds_key, Pubkey};
use crate::rollup::errors::{arithmetic_code, fail, Error, ErrorCode};
use crate::rollup::events::BatchAllocated;
use crate::rollup::state::{Sale, SaleStatus, SealedBid};

verus! {

/// Most bids allocated in one batch.
pub const MAX_ALLOCATE_BATCH_SIZE: usize = 10;

/// The accounts of allocating a batch: the sale and its address. Anyone may call.
pub struct AllocateBatch {
    pub sale: Sale,
    pub sale_key: Pubkey,
}

/// The settlement terms by which bids are allocated.
#[derive(Clone, Copy, Debug)]
pub struct AllocationTerms {
    pub sale_key: Pubkey,
    pub clearing_fdv: u64,
    pub fill_rate: u64,
    pub marginal_user: Option<Pubkey>,
    pub marginal_allocation: Option<u64>,
    pub token_supply: u64,
}

/// The settlement terms recorded on the sale.
pub open spec fn allocation_terms(sale: Sale, sale_key: Pubkey) -> AllocationTerms {
    AllocationTerms {
        sale_key: sale_key,
        clearing_fdv: sale.clearing_fdv->Some_0,
        fill_rate: sale.fill_rate->Some_0,
        marginal_user: sale.marginal_user,
        marginal_allocation: sale.marginal_allocation,
        token_supply: sale.token_supply,
    }
}

/// USDC used by a bid that clears at the fill rate: its pro-rata share below 100%, all of it
/// at 100% or more.
pub open spec fn filled_amount(amount: u64, fill_rate: u64) -> u64 {
    if fill_rate < 10000 {
        pro_rata(amount, fill_rate) as u64
    } else {
        amount
    }
}

/// A bid with its allocation written and its maximum FDV erased; an allocation that buys no
/// token is refunded in full instead.
pub open spec fn settled_bid(bid: SealedBid, allocation: u64, tokens: u64, marginal: bool) -> SealedBid {
    if tokens == 0 {
        SealedBid {
            allocation: 0,
            refund: bid.amount,
            tokens: 0,
            cleared: true,
            is_marginal: marginal,
            max_fdv_plaintext: None,
            ..bid
        }
    } else {
        SealedBid {
            allocation: allocation,
            refund: (bid.amount - allocation) as u64,
            tokens: tokens,
            cleared: true,
            is_marginal: marginal,
            max_fdv_plaintext: None,
            ..bid
        }
    }
}

/// Allocating one bid account: `Ok(None)` for a bid already allocated, which is skipped;
/// otherwise the allocated bid and whether it is the marginal bidder's. A bid above the
/// clearing FDV, or at it but not the marginal bidder's, uses its filled amount; the
/// marginal bidder's uses the marginal allocation; a bid below is refunded.
pub open spec fn allocate_one(terms: AllocationTerms, account: Option<SealedBid>) -> Result<
    Option<(SealedBid, bool)>,
    ErrorCode,
> {
    match account {
        None => Err(ErrorCode::InvalidParameters),
        Some(bid) => if bid.sale@ != terms.sale_key@ || !bid.is_initialized {
            Err(ErrorCode::InvalidParameters)
        } else if bid.cleared {
            Ok(None)
        } else if bid.max_fdv_plaintext is None {
            Err(ErrorCode::BidNotSubmitted)
        } else {
            let max_fdv = bid.max_fdv_plaintext->Some_0;
            let c = terms.clearing_fdv;
            if max_fdv == c && holds_key(terms.marginal_user, bid.user) {
                match terms.marginal_allocation {
                    None => Err(ErrorCode::InvalidMarginalAllocation),
                    Some(a) => match tokens_for(a, terms.token_supply, c) {
                        Err(e) => Err(arithmetic_code(e)),
                        Ok(t) => if t != 0 && a > bid.amount {
                            Err(ErrorCode::ArithmeticOverflow)
                        } else {
                            Ok(Some((settled_bid(bid, a, t, true), true)))
                        },
                    },
                }
            } else if max_fdv >= c {
                let a = filled_amount(bid.amount, terms.fill_rate);
                match tokens_for(a, terms.token_supply, c) {
                    Err(e) => Err(arithmetic_code(e)),
                    Ok(t) => Ok(Some((settled_bid(bid, a, t, false), false))),
                }
            } else {
                Ok(
                    Some(
                        (
                            SealedBid {
                                allocation: 0,
                                refund: bid.amount,
                                tokens: 0,
                                cleared: true,
                                is_marginal: false,
                                max_fdv_plaintext: None,
                                ..bid
                            },
                            false,
                        ),
                    ),
                )
            }
        },
    }
}

/// The running tally of a batch: the accounts, the sale's running sum and allocation count,
/// whether the marginal bidder was allocated, and the number of bids allocated.
pub struct Tally {
    pub accounts: Seq<Option<SealedBid>>,
    pub running_sum: u64,
    pub verification_count: u32,
    pub marginal_verified: bool,
    pub batch_count: u32,
}

/// Allocating the accounts at the indices of `batch` in turn, starting from `start`. A
/// repeated account is read as the earlier steps left it, and so skipped.
pub open spec fn allocate_all(terms: AllocationTerms, start: Tally, batch: Seq<usize>) -> Result<
    Tally,
    ErrorCode,
>
    decreases batch.len(),
{
    if batch.len() == 0 {
        Ok(start)
    } else {
        match allocate_all(terms, start, batch.drop_last()) {
            Err(e) => Err(e),
            Ok(t) => {
                let i = batch.last() as int;
                match allocate_one(terms, t.accounts[i]) {
                    Err(e) => Err(e),
                    Ok(None) => Ok(t),
                    Ok(Some((bid, marginal))) => if t.running_sum + bid.allocation > u64::MAX {
                        Err(ErrorCode::ArithmeticOverflow)
                    } else if t.verification_count + 1 > u32::MAX {
                        Err(ErrorCode::ArithmeticOverflow)
                    } else {
                        Ok(
                            Tally {
                                accounts: t.accounts.update(i, Some(bid)),
                                running_sum: (t.running_sum + bid.allocation) as u64,
                                verification_count: (t.verification_count + 1) as u32,
                                marginal_verified: t.marginal_verified || marginal,
                                batch_count: (t.batch_count + 1) as u32,
                            },
                        )
                    },
                }
            },
        }
    }
}

/// The tally a batch starts from.
pub open spec fn initial_tally(sale: Sale, accounts: Seq<Option<SealedBid>>) -> Tally {
    Tally {
        accounts: accounts,
        running_sum: sale.running_sum,
        verification_count: sale.verification_count,
        marginal_verified: sale.marginal_user_verified,
        batch_count: 0,
    }
}

/// Why a batch fails, checked in this order; `None` when it succeeds.
pub open spec fn allocate_batch_failure(
    sale: Sale,
    sale_key: Pubkey,
    accounts: Seq<Option<SealedBid>>,
    batch: Seq<usize>,
) -> Option<Error> {
    if sale.status != SaleStatus::Computing {
        Some(fail(ErrorCode::InvalidSaleStatus))
    } else if !sale.settlement_computed {
        Some(fail(ErrorCode::SettlementNotComputed))
    } else if batch.len() == 0 {
        Some(fail(ErrorCode::BatchEmpty))
    } else if batch.len() > MAX_ALLOCATE_BATCH_SIZE {
        Some(fail(ErrorCode::BatchSizeTooLarge))
    } else if sale.clearing_fdv is None || sale.fill_rate is None {
        Some(fail(ErrorCode::InvalidSaleStatus))
    } else {
        match allocate_all(allocation_terms(sale, sale_key), initial_tally(sale, accounts), batch) {
            Err(c) => Some(fail(c)),
            Ok(_) => None,
        }
    }
}

/// The sale after a batch: its tally recorded, and the allocation phase over once every
/// committed bid is allocated.
pub open spec fn sale_after_batch(sale: Sale, t: Tally) -> Sale {
    let updated = Sale {
        running_sum: t.running_sum,
        verification_count: t.verification_count,
        marginal_user_verified: t.marginal_verified,
        ..sale
    };
    if t.verification_count == sale.total_users {
        Sale { bids_zeroed: true, status: SaleStatus::Allocated, ..updated }
    } else {
        updated
    }
}

proof fn lemma_allocate_error_persists(
    terms: AllocationTerms,
    start: Tally,
    batch: Seq<usize>,
    i: int,
    j: int,
)
    requires
        0 <= i <= j <= batch.len(),
        allocate_all(terms, start, batch.take(i)) is Err,
    ensures
        allocate_all(terms, start, batch.take(j)) == allocate_all(terms, start, batch.take(i)),
    decreases j - i,
{
    if j > i {
        lemma_allocate_error_persists(terms, start, batch, i, j - 1);
        assert(batch.take(j).drop_last() =~= batch.take(j - 1));
    }
}

/// The filled amount of a bid.
fn fill(amount: u64, fill_rate: u64) -> (a: u64)
    ensures
        a == filled_amount(amount, fill_rate),
        a <= amount,
{
    if fill_rate < 10000 {
        pro_rata_share(amount, fill_rate) as u64
    } else {
        amount
    }
}

/// Allocates one account.
fn allocate_account(terms: &AllocationTerms, account: &Option<SealedBid>) -> (r: Result<
    Option<(SealedBid, bool)>,
    ErrorCode,
>)
    ensures
        r == allocate_one(*terms, *account),
{
    let bid = match account {
        None => return Err(ErrorCode::InvalidParameters),
        Some(b) => *b,
    };
    if !bid.sale.same_as(&terms.sale_key) || !bid.is_initialized {
        return Err(ErrorCode::InvalidParameters);
    }
    if bid.cleared {
        return Ok(None);
    }
    let max_fdv = match bid.max_fdv_plaintext {
        Some(v) => v,
        None => return Err(ErrorCode::BidNotSubmitted),
    };
    let clearing_fdv = terms.clearing_fdv;
    let mut out = bid;
    if max_fdv > clearing_fdv {
        let allocation = fill(bid.amount, terms.fill_rate);
        let tokens = match calculate_tokens(allocation, terms.token_supply, clearing_fdv) {
            Ok(t) => t,
            Err(e) => return Err(ErrorCode::from_arithmetic(e)),
        };
        if tokens == 0 {
            out.allocation = 0;
            out.refund = bid.amount;
            out.tokens = 0;
        } else {
            out.allocation = allocation;
            out.refund = bid.amount - allocation;
            out.tokens = tokens;
        }
        out.cleared = true;
        out.is_marginal = false;
        out.max_fdv_plaintext = None;
        Ok(Some((out, false)))
    } else if max_fdv == clearing_fdv && option_holds_key(&terms.marginal_user, &bid.user) {
        let allocation = match terms.marginal_allocation {
            Some(a) => a,
            None => return Err(ErrorCode::InvalidMarginalAllocation),
        };
        let tokens = match calculate_tokens(allocation, terms.token_supply, clearing_fdv) {
            Ok(t) => t,
            Err(e) => return Err(ErrorCode::from_arithmetic(e)),
        };
        if tokens == 0 {
            out.allocation = 0;
            out.refund = bid.amount;
            out.tokens = 0;
        } else {
            out.allocation = allocation;
            out.refund = match bid.amount.checked_sub(allocation) {
                Some(v) => v,
                None => return Err(ErrorCode::ArithmeticOverflow),
            };
            out.tokens = tokens;
        }
        out.cleared = true;
        out.is_marginal = true;
        out.max_fdv_plaintext = None;
        Ok(Some((out, true)))
    } else if max_fdv == clearing_fdv {
        let allocation = fill(bid.amount, terms.fill_rate);
        let tokens = match calculate_tokens(allocation, terms.token_supply, clearing_fdv) {
            Ok(t) => t,
            Err(e) => return Err(ErrorCode::from_arithmetic(e)),
        };
        if tokens == 0 {
            out.allocation = 0;
            out.refund = bid.amount;
            out.tokens = 0;
        } else {
            out.allocation = allocation;
            out.refund = bid.amount - allocation;
            out.tokens = tokens;
        }
        out.cleared = true;
        out.is_marginal = false;
        out.max_fdv_plaintext = None;
        Ok(Some((out, false)))
    } else {
        out.allocation = 0;
        out.refund = bid.amount;
        out.tokens = 0;
        out.cleared = true;
        out.is_marginal = false;
        out.max_fdv_plaintext = None;
        Ok(Some((out, false)))
    }
}

/// Allocates up to ten bids by the settlement terms and erases each one's maximum FDV, so
/// that no bid value leaves the rollup; bids already allocated are skipped. `batch` lists,
/// in order, the positions in `accounts` of the accounts passed to the instruction; an
/// account that cannot be read as a sealed bid is `None`. On an error the accounts and the
/// sale are left as they were.
pub fn handler_allocate_batch(
    ctx: &mut AllocateBatch,
    accounts: &mut Vec<Option<SealedBid>>,
    batch: &Vec<usize>,
) -> (r: Result<BatchAllocated, Error>)
    requires
        forall|k: int| 0 <= k < batch@.len() ==> batch@[k] < old(accounts)@.len(),
    ensures
        final(ctx).sale_key == old(ctx).sale_key,
        match r {
            Ok(event) => {
                &&& allocate_batch_failure(old(ctx).sale, old(ctx).sale_key, old(accounts)@, batch@)
                    is None
                &&& allocate_all(
                    allocation_terms(old(ctx).sale, old(ctx).sale_key),
                    initial_tally(old(ctx).sale, old(accounts)@),
                    batch@,
                ) matches Ok(t) && final(accounts)@ == t.accounts && final(ctx).sale
                    == sale_after_batch(old(ctx).sale, t) && event == (BatchAllocated {
                    sale: old(ctx).sale_key,
                    batch_size: t.batch_count,
                    verification_count: t.verification_count,
                })
            },
            Err(e) => allocate_batch_failure(old(ctx).sale, old(ctx).sale_key, old(accounts)@, batch@)
                == Some(e) && final(ctx).sale == old(ctx).sale && final(accounts)@ == old(accounts)@,
        },
{
    if ctx.sale.status != SaleStatus::Computing {
        return Err(ProgramError::Custom(ErrorCode::InvalidSaleStatus));
    }
    if !ctx.sale.settlement_computed {
        return Err(ProgramError::Custom(ErrorCode::SettlementNotComputed));
    }
    if batch.len() == 0 {
        return Err(ProgramError::Custom(ErrorCode::BatchEmpty));
    }
    if batch.len() > MAX_ALLOCATE_BATCH_SIZE {
        return Err(ProgramError::Custom(ErrorCode::BatchSizeTooLarge));
    }
    let clearing_fdv = match ctx.sale.clearing_fdv {
        Some(v) => v,
        None => return Err(ProgramError::Custom(ErrorCode::InvalidSaleStatus)),
    };
    let fill_rate = match ctx.sale.fill_rate {
        Some(v) => v,
        None => return Err(ProgramError::Custom(ErrorCode::InvalidSaleStatus)),
    };
    let terms = AllocationTerms {
        sale_key: ctx.sale_key,
        clearing_fdv,
        fill_rate,
        marginal_user: ctx.sale.marginal_user,
        marginal_allocation: ctx.sale.marginal_allocation,
        token_supply: ctx.sale.token_supply,
    };
    // The batch is worked out on a copy, which replaces the accounts only once every bid has
    // been allocated.
    let mut work: Vec<Option<SealedBid>> = Vec::new();
    let mut c: usize = 0;
    while c < accounts.len()
        invariant
            0 <= c <= accounts@.len(),
            work@ == accounts@.take(c as int),
        decreases accounts@.len() - c,
    {
        work.push(accounts[c]);
        assert(accounts@.take(c + 1) =~= accounts@.take(c as int).push(accounts@[c as int]));
        c = c + 1;
    }
    assert(accounts@.take(accounts@.len() as int) =~= accounts@);
    let ghost start = initial_tally(ctx.sale, work@);
    let mut running_sum = ctx.sale.running_sum;
    let mut verification_count = ctx.sale.verification_count;
    let mut marginal_verified = ctx.sale.marginal_user_verified;
    let mut batch_count: u32 = 0;
    let mut i: usize = 0;
    while i < batch.len()
        invariant
            0 <= i <= batch@.len(),
            1 <= batch@.len() <= MAX_ALLOCATE_BATCH_SIZE,
            work@.len() == old(accounts)@.len(),
            accounts@ == old(accounts)@,
            forall|k: int| 0 <= k < batch@.len() ==> batch@[k] < old(accounts)@.len(),
            ctx.sale == old(ctx).sale,
            ctx.sale_key == old(ctx).sale_key,
            ctx.sale.status == SaleStatus::Computing,
            ctx.sale.settlement_computed,
            ctx.sale.clearing_fdv is Some && ctx.sale.fill_rate is Some,
            terms == allocation_terms(old(ctx).sale, old(ctx).sale_key),
            start == initial_tally(old(ctx).sale, old(accounts)@),
            batch_count <= i,
            allocate_all(terms, start, batch@.take(i as int)) == Ok::<Tally, ErrorCode>(
                Tally {
                    accounts: work@,
                    running_sum,
                    verification_count,
                    marginal_verified,
                    batch_count,
                },
            ),
        decreases batch@.len() - i,
    {
        let idx = batch[i];
        assert(batch@.take(i + 1).drop_last() =~= batch@.take(i as int));
        assert(batch@.take(i + 1).last() == batch@[i as int]);
        let outcome = allocate_account(&terms, &work[idx]);
        match outcome {
            Err(c) => {
                proof {
                    lemma_allocate_error_persists(terms, start, batch@, i + 1, batch@.len() as int);
                    assert(batch@.take(batch@.len() as int) =~= batch@);
                }
                return Err(ProgramError::Custom(c));
            },
            Ok(None) => {},
            Ok(Some((bid, is_marginal))) => {
                let sum = match running_sum.checked_add(bid.allocation) {
                    Some(v) => v,
                    None => {
                        proof {
                            lemma_allocate_error_persists(
                                terms,
                                start,
                                batch@,
                                i + 1,
                                batch@.len() as int,
                            );
                            assert(batch@.take(batch@.len() as int) =~= batch@);
                        }
                        return Err(ProgramError::Custom(ErrorCode::ArithmeticOverflow));
                    },
                };
                let count = match verification_count.checked_add(1) {
                    Some(v) => v,
                    None => {
                        proof {
                            lemma_allocate_error_persists(
                                terms,
                                start,
                                batch@,
                                i + 1,
                                batch@.len() as int,
                            );
                            assert(batch@.take(batch@.len() as int) =~= batch@);
                        }
                        return Err(ProgramError::Custom(ErrorCode::ArithmeticOverflow));
                    },
                };
                running_sum = sum;
                verification_count = count;
                if is_marginal {
                    marginal_verified = true;
                }
                batch_count = batch_count + 1;
                work.set(idx, Some(bid));
            },
        }
        i = i + 1;
    }
    assert(batch@.take(batch@.len() as int) =~= batch@);
    ctx.sale.running_sum = running_sum;
    ctx.sale.verification_count = verification_count;
    ctx.sale.marginal_user_verified = marginal_verified;
    if ctx.sale.verification_count == ctx.sale.total_users {
        ctx.sale.bids_zeroed = true;
        ctx.sale.status = SaleStatus::Allocated;
    }
    *accounts = work;
    Ok(BatchAllocated { sale: ctx.sale_key, batch_size: batch_count, verification_count })
}

/// Every bid a batch allocates leaves with its maximum FDV erased, and splits its
/// commitment exactly into allocation and refund; its tokens are what its allocation buys
/// at the one clearing FDV, and a bid below the clearing FDV is refunded in full.
pub proof fn law_allocated_bid_is_erased_and_split(terms: AllocationTerms, account: Option<SealedBid>)
    requires
        allocate_one(terms, account) matches Ok(Some(_)),
    ensures
        ({
            let (bid, _) = allocate_one(terms, account)->Ok_0->Some_0;
            let prior = account->Some_0;
            &&& bid.max_fdv_plaintext is None
            &&& bid.cleared
            &&& bid.allocation + bid.refund == prior.amount
            &&& bid.allocation <= prior.amount
            &&& bid.tokens > 0 ==> tokens_for(bid.allocation, terms.token_supply, terms.clearing_fdv)
                == Ok::<u64, crate::math::ArithmeticError>(bid.tokens)
            &&& bid.tokens == 0 ==> bid.allocation == 0
            &&& prior.max_fdv_plaintext->Some_0 < terms.clearing_fdv ==> bid.allocation == 0
                && bid.refund == prior.amount
        }),
{
    let prior = account->Some_0;
    if terms.fill_rate < 10000 {
        assert(pro_rata(prior.amount, terms.fill_rate) <= prior.amount) by (nonlinear_arith)
            requires
                terms.fill_rate < 10000,
                pro_rata(prior.amount, terms.fill_rate) == (prior.amount as int
                    * terms.fill_rate as int) / 10000,
        ;
    }
}

/// A bid at or above the clearing FDV that is not the named marginal bidder's clears at the
/// fill rate, exactly as a bid above the clearing FDV does: it uses
/// `amount * fill_rate / 10000` of its commitment (all of it at a fill rate of 100% or more)
/// and, when that buys at least one token at the clearing FDV, is allocated it, with the
/// rest refunded and the tokens it buys.
pub proof fn law_bid_at_or_above_clearing_is_filled(terms: AllocationTerms, bid: SealedBid, higher_fdv: u64)
    requires
        allocate_one(terms, Some(bid)) matches Ok(Some(_)),
        !bid.cleared,
        bid.max_fdv_plaintext matches Some(m) && m >= terms.clearing_fdv,
        higher_fdv > terms.clearing_fdv,
        !holds_key(terms.marginal_user, bid.user),
        ({
            let used = if terms.fill_rate < 10000 {
                bid.amount as int * terms.fill_rate as int / 10000
            } else {
                bid.amount as int
            };
            used * terms.token_supply as int / terms.clearing_fdv as int >= 1
        }),
    ensures
        ({
            let used = if terms.fill_rate < 10000 {
                bid.amount as int * terms.fill_rate as int / 10000
            } else {
                bid.amount as int
            };
            let (allocated, marginal) = allocate_one(terms, Some(bid))->Ok_0->Some_0;
            &&& allocated.allocation == used
            &&& allocated.refund == bid.amount - used
            &&& allocated.tokens == used * terms.token_supply as int / terms.clearing_fdv as int
            &&& !marginal
            &&& allocate_one(terms, Some(bid)) == allocate_one(
                terms,
                Some(SealedBid { max_fdv_plaintext: Some(higher_fdv), ..bid }),
            )
        }),
{
    if terms.fill_rate < 10000 {
        assert(pro_rata(bid.amount, terms.fill_rate) <= bid.amount) by (nonlinear_arith)
            requires
                terms.fill_rate < 10000,
                pro_rata(bid.amount, terms.fill_rate) == (bid.amount as int * terms.fill_rate as int)
                    / 10000,
        ;
    }
}

/// The named marginal bidder, bidding exactly the clearing FDV, is allocated the proposed
/// marginal allocation (when it buys at least one token), the rest refunded, and is marked
/// marginal.
pub proof fn law_marginal_bidder_gets_marginal_allocation(terms: AllocationTerms, bid: SealedBid)
    requires
        allocate_one(terms, Some(bid)) matches Ok(Some(_)),
        !bid.cleared,
        bid.max_fdv_plaintext == Some(terms.clearing_fdv),
        holds_key(terms.marginal_user, bid.user),
        terms.marginal_allocation matches Some(a) && a as int * terms.token_supply as int
            / terms.clearing_fdv as int >= 1,
    ensures
        ({
            let a = terms.marginal_allocation->Some_0;
            let (allocated, marginal) = allocate_one(terms, Some(bid))->Ok_0->Some_0;
            &&& allocated.allocation == a
            &&& allocated.refund == bid.amount - a
            &&& allocated.tokens == a as int * terms.token_supply as int / terms.clearing_fdv as int
            &&& allocated.is_marginal
            &&& marginal
        }),
{
}

} // verus!
