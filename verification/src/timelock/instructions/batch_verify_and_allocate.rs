use vstd::prelude::*;

use crate::math::{calculate_tokens, is_marginal_bidder, pro_rata, pro_rata_share, tokens_for};
use crate::program_error::{AccountDataError, ProgramError};
use crate::pubkey::{holds_key, option_holds_key, program_address, try_find_program_address3, Pubkey};
use crate::timelock::errors::{arithmetic_code, fail, Error, ErrorCode};
use crate::timelock::state::{load_bid, read_bid, BidAccount, Sale, SaleStatus, SealedBid, SEALED_BID_SEED};

verus! {

/// Most bids verified in one batch.
pub const MAX_BATCH_SIZE: usize = 10;

/// The accounts of a batch verification: the sale, its address, and the program's id.
pub struct BatchVerifyAndAllocate {
    pub sale: Sale,
    pub sale_key: Pubkey,
    pub program_id: Pubkey,
}

/// The proposal terms against which each bid of a batch is verified.
#[derive(Clone, Copy)]
pub struct BatchProcessParams {
    pub sale_key: Pubkey,
    pub program_id: Pubkey,
    pub clearing_fdv: u64,
    pub fill_rate: u64,
    pub settlement_nonce: u64,
    pub marginal_user: Option<Pubkey>,
    pub marginal_allocation: Option<u64>,
    pub token_supply: u64,
}

/// The pro-rata share of `amount` at `fill_rate` and the rest as refund; the share must fit
/// in a `u64` and not exceed the amount.
pub open spec fn pro_rata_terms(amount: u64, fill_rate: u64) -> Result<(u64, u64), ErrorCode> {
    let share = pro_rata(amount, fill_rate);
    if share > u64::MAX {
        Err(ErrorCode::ArithmeticOverflow)
    } else if share > amount {
        Err(ErrorCode::ArithmeticOverflow)
    } else {
        Ok((share as u64, (amount - share) as u64))
    }
}

/// Allocation, refund, whether marginal, and whether cleared, for a revealed bid: a bid above
/// the clearing FDV gets the pro-rata share; the named marginal bidder at the clearing FDV
/// gets the marginal allocation; any other bid at the clearing FDV gets the pro-rata share;
/// a bid below is refunded in full.
pub open spec fn bid_terms(params: BatchProcessParams, bid: SealedBid) -> Result<
    (u64, u64, bool, bool),
    ErrorCode,
> {
    if !bid.bid_revealed || bid.max_fdv_plaintext is None {
        Err(ErrorCode::BidNotRevealed)
    } else {
        let max_fdv = bid.max_fdv_plaintext->Some_0;
        if max_fdv > params.clearing_fdv {
            match pro_rata_terms(bid.amount, params.fill_rate) {
                Ok((a, r)) => Ok((a, r, false, true)),
                Err(e) => Err(e),
            }
        } else if max_fdv == params.clearing_fdv {
            if holds_key(params.marginal_user, bid.user) {
                match params.marginal_allocation {
                    None => Err(ErrorCode::InvalidMarginalAllocation),
                    Some(a) => if a > bid.amount {
                        Err(ErrorCode::InvalidMarginalAllocation)
                    } else {
                        Ok((a, (bid.amount - a) as u64, true, true))
                    },
                }
            } else {
                match pro_rata_terms(bid.amount, params.fill_rate) {
                    Ok((a, r)) => Ok((a, r, false, true)),
                    Err(e) => Err(e),
                }
            }
        } else {
            Ok((0, bid.amount, false, false))
        }
    }
}

/// `bid_terms` with the tokens that the allocation buys at the clearing FDV.
pub open spec fn user_allocation(params: BatchProcessParams, bid: SealedBid) -> Result<
    (u64, u64, bool, bool, u64),
    ErrorCode,
> {
    match bid_terms(params, bid) {
        Err(e) => Err(e),
        Ok((a, r, m, c)) => if a > 0 {
            match tokens_for(a, params.token_supply, params.clearing_fdv) {
                Err(e) => Err(arithmetic_code(e)),
                Ok(t) => Ok((a, r, m, c, t)),
            }
        } else {
            Ok((a, r, m, c, 0))
        },
    }
}

/// A bid with its verified allocation written; an allocation that buys no token is refunded
/// in full instead.
pub open spec fn allocated_bid(bid: SealedBid, terms: (u64, u64, bool, bool, u64), nonce: u64) -> SealedBid {
    let (a, r, m, c, t) = terms;
    let dust = a > 0 && t == 0;
    SealedBid {
        cleared: if dust { false } else { c },
        is_marginal: m,
        allocation: if dust { 0 } else { a },
        refund: if dust { bid.amount } else { r },
        tokens: if dust { 0 } else { t },
        verified_for_nonce: nonce,
        ..bid
    }
}

/// Allocation, refund, whether marginal, whether cleared, and tokens for one bid.
pub(crate) fn calculate_user_allocation(params: &BatchProcessParams, bid: &SealedBid) -> (r: Result<
    (u64, u64, bool, bool, u64),
    Error,
>)
    ensures
        match r {
            Ok(v) => user_allocation(*params, *bid) == Ok::<(u64, u64, bool, bool, u64), ErrorCode>(v),
            Err(e) => user_allocation(*params, *bid) matches Err(c) && e == fail(c),
        },
{
    if !bid.bid_revealed {
        return Err(ProgramError::Custom(ErrorCode::BidNotRevealed));
    }
    let user_max_fdv = match bid.max_fdv_plaintext {
        Some(v) => v,
        None => return Err(ProgramError::Custom(ErrorCode::BidNotRevealed)),
    };
    let clearing_fdv = params.clearing_fdv;
    let fill_rate = params.fill_rate;
    let (allocation, refund, is_marginal, cleared) = if user_max_fdv > clearing_fdv {
        let (a, r) = pro_rata_split(bid.amount, fill_rate)?;
        (a, r, false, true)
    } else if is_marginal_bidder(user_max_fdv, clearing_fdv) {
        if option_holds_key(&params.marginal_user, &bid.user) {
            if user_max_fdv != clearing_fdv {
                return Err(ProgramError::Custom(ErrorCode::InvalidMarginalAllocation));
            }
            let marginal_alloc = match params.marginal_allocation {
                Some(a) => a,
                None => return Err(ProgramError::Custom(ErrorCode::InvalidMarginalAllocation)),
            };
            if marginal_alloc > bid.amount {
                return Err(ProgramError::Custom(ErrorCode::InvalidMarginalAllocation));
            }
            (marginal_alloc, bid.amount - marginal_alloc, true, true)
        } else {
            let (a, r) = pro_rata_split(bid.amount, fill_rate)?;
            (a, r, false, true)
        }
    } else {
        (0u64, bid.amount, false, false)
    };
    let tokens = if allocation > 0 {
        match calculate_tokens(allocation, params.token_supply, clearing_fdv) {
            Ok(t) => t,
            Err(e) => return Err(ProgramError::Custom(ErrorCode::from_arithmetic(e))),
        }
    } else {
        0
    };
    Ok((allocation, refund, is_marginal, cleared, tokens))
}

/// The pro-rata share of `amount` and the rest.
fn pro_rata_split(amount: u64, fill_rate: u64) -> (r: Result<(u64, u64), Error>)
    ensures
        match r {
            Ok(v) => pro_rata_terms(amount, fill_rate) == Ok::<(u64, u64), ErrorCode>(v),
            Err(e) => pro_rata_terms(amount, fill_rate) matches Err(c) && e == fail(c),
        },
{
    let raw = pro_rata_share(amount, fill_rate);
    if raw > u64::MAX as u128 {
        return Err(ProgramError::Custom(ErrorCode::ArithmeticOverflow));
    }
    let allocation = raw as u64;
    if allocation > amount {
        return Err(ProgramError::Custom(ErrorCode::ArithmeticOverflow));
    }
    Ok((allocation, amount - allocation))
}

/// The proposal terms recorded on the sale.
pub open spec fn batch_params(sale: Sale, sale_key: Pubkey, program_id: Pubkey) -> BatchProcessParams {
    BatchProcessParams {
        sale_key: sale_key,
        program_id: program_id,
        clearing_fdv: sale.clearing_fdv->Some_0,
        fill_rate: sale.fill_rate->Some_0,
        settlement_nonce: sale.settlement_nonce,
        marginal_user: sale.marginal_user,
        marginal_allocation: sale.marginal_allocation,
        token_supply: sale.token_supply,
    }
}

/// The address at which the sealed bid of `user` must live.
pub open spec fn sealed_bid_address(params: BatchProcessParams, user: Pubkey) -> Option<
    (Seq<u8>, u8),
> {
    program_address(seq![SEALED_BID_SEED@, params.sale_key@, user@], params.program_id@)
}

/// Verifying one account of a batch: its checks, in order, and on success the bid with its
/// allocation written, the allocation counted towards the raise, and whether it is the
/// marginal bidder's.
pub open spec fn verify_one(params: BatchProcessParams, account: BidAccount) -> Result<
    (SealedBid, u64, bool),
    Error,
> {
    if account.owner@ != params.program_id@ {
        Err(fail(ErrorCode::InvalidParameters))
    } else {
        match read_bid::<ErrorCode>(account, params.program_id) {
            Err(e) => Err(e),
            Ok(bid) => if bid.sale@ != params.sale_key@ {
                Err(fail(ErrorCode::InvalidParameters))
            } else if !bid.is_initialized {
                Err(fail(ErrorCode::InvalidParameters))
            } else if bid.amount == 0 {
                Err(fail(ErrorCode::InvalidAmount))
            } else if bid.verified_for_nonce == params.settlement_nonce {
                Err(fail(ErrorCode::AlreadyVerified))
            } else {
                match sealed_bid_address(params, bid.user) {
                    None => Err(ProgramError::ProgramAddressNotFound),
                    Some((address, _)) => if address != account.key@ {
                        Err(fail(ErrorCode::InvalidParameters))
                    } else {
                        match user_allocation(params, bid) {
                            Err(c) => Err(fail(c)),
                            Ok(terms) => {
                                let verified = allocated_bid(bid, terms, params.settlement_nonce);
                                Ok(
                                    (
                                        verified,
                                        verified.allocation,
                                        terms.2 && holds_key(params.marginal_user, bid.user),
                                    ),
                                )
                            },
                        }
                    },
                }
            },
        }
    }
}

/// Verifying the accounts at the indices of `batch` in turn. An index may repeat; a repeated
/// account is read as the earlier steps left it. On success: the accounts, the sum of the
/// allocations, and whether the marginal bidder was among them.
pub open spec fn verify_batch(
    params: BatchProcessParams,
    accounts: Seq<BidAccount>,
    batch: Seq<usize>,
) -> Result<(Seq<BidAccount>, u64, bool), Error>
    decreases batch.len(),
{
    if batch.len() == 0 {
        Ok((accounts, 0, false))
    } else {
        match verify_batch(params, accounts, batch.drop_last()) {
            Err(e) => Err(e),
            Ok((accs, delta, marginal)) => {
                let i = batch.last() as int;
                match verify_one(params, accs[i]) {
                    Err(e) => Err(e),
                    Ok((verified, allocation, is_marginal)) => if delta + allocation > u64::MAX {
                        Err(fail(ErrorCode::ArithmeticOverflow))
                    } else {
                        Ok(
                            (
                                accs.update(i, BidAccount { bid: Ok(verified), ..accs[i] }),
                                (delta + allocation) as u64,
                                marginal || is_marginal,
                            ),
                        )
                    },
                }
            },
        }
    }
}

/// Statuses in which bids are verified.
pub open spec fn verifying(status: SaleStatus) -> bool {
    status == SaleStatus::Proposed || status == SaleStatus::Verifying
}

/// Why a batch verification fails, checked in this order; `None` when it succeeds.
pub open spec fn batch_verify_failure(
    sale: Sale,
    sale_key: Pubkey,
    program_id: Pubkey,
    accounts: Seq<BidAccount>,
    batch: Seq<usize>,
) -> Option<Error> {
    if !verifying(sale.status) {
        Some(fail(ErrorCode::InvalidSaleStatus))
    } else if sale.clearing_fdv is None || sale.fill_rate is None {
        Some(fail(ErrorCode::InvalidSaleStatus))
    } else if batch.len() == 0 {
        Some(fail(ErrorCode::BatchEmpty))
    } else if batch.len() > MAX_BATCH_SIZE {
        Some(fail(ErrorCode::BatchSizeTooLarge))
    } else {
        match verify_batch(batch_params(sale, sale_key, program_id), accounts, batch) {
            Err(e) => Some(e),
            Ok((_, delta, _)) => if sale.running_sum + delta > u64::MAX {
                Some(fail(ErrorCode::ArithmeticOverflow))
            } else if sale.verification_count + batch.len() > u32::MAX {
                Some(fail(ErrorCode::ArithmeticOverflow))
            } else {
                None
            },
        }
    }
}

/// The sale after a verified batch: the allocations added to the running sum, the bids
/// counted, the marginal bidder noted, and the sale in verification.
pub open spec fn after_verification(sale: Sale, delta: u64, count: nat, marginal: bool) -> Sale {
    Sale {
        running_sum: (sale.running_sum + delta) as u64,
        verification_count: (sale.verification_count + count) as u32,
        marginal_user_verified: sale.marginal_user_verified || marginal,
        status: if sale.status == SaleStatus::Proposed {
            SaleStatus::Verifying
        } else {
            sale.status
        },
        ..sale
    }
}

/// A verified bid splits its commitment exactly into allocation and refund, and its tokens
/// are what its allocation buys at the one clearing FDV.
pub proof fn law_verified_bid_splits_commitment(params: BatchProcessParams, bid: SealedBid, nonce: u64)
    requires
        user_allocation(params, bid) is Ok,
    ensures
        ({
            let verified = allocated_bid(bid, user_allocation(params, bid)->Ok_0, nonce);
            &&& verified.allocation + verified.refund == bid.amount
            &&& verified.allocation <= bid.amount
            &&& verified.allocation > 0 ==> tokens_for(
                verified.allocation,
                params.token_supply,
                params.clearing_fdv,
            ) == Ok::<u64, crate::math::ArithmeticError>(verified.tokens) && verified.tokens > 0
            &&& verified.allocation == 0 ==> verified.tokens == 0
        }),
{
}

/// A bid below the clearing FDV is refunded in full; a bid above it gets its pro-rata share
/// of the commitment, or a full refund when that share buys no token.
pub proof fn law_bids_clear_by_price(params: BatchProcessParams, bid: SealedBid, nonce: u64)
    requires
        user_allocation(params, bid) is Ok,
    ensures
        ({
            let verified = allocated_bid(bid, user_allocation(params, bid)->Ok_0, nonce);
            let max_fdv = bid.max_fdv_plaintext->Some_0;
            &&& max_fdv < params.clearing_fdv ==> verified.allocation == 0 && verified.refund
                == bid.amount && !verified.cleared
            &&& max_fdv > params.clearing_fdv ==> (verified.allocation == pro_rata(
                bid.amount,
                params.fill_rate,
            ) && verified.cleared) || (verified.allocation == 0 && verified.refund == bid.amount
                && !verified.cleared)
            &&& (max_fdv > params.clearing_fdv && params.fill_rate == 10000 && verified.cleared)
                ==> verified.allocation == bid.amount
        }),
{
    let max_fdv = bid.max_fdv_plaintext->Some_0;
    if max_fdv > params.clearing_fdv && params.fill_rate == 10000 {
        assert(pro_rata(bid.amount, 10000) == bid.amount as int);
    }
}

/// After a successful prefix of a batch, every account it named is verified for the
/// current proposal, and every account it did not name is as it was.
proof fn lemma_verified_prefix(params: BatchProcessParams, accounts: Seq<BidAccount>, batch: Seq<usize>, i: int)
    requires
        0 <= i <= batch.len(),
        forall|k: int| 0 <= k < batch.len() ==> batch[k] < accounts.len(),
    ensures
        verify_batch(params, accounts, batch.take(i)) matches Ok((accs, _d, _m)) ==> {
            &&& accs.len() == accounts.len()
            &&& forall|k: int| 0 <= k < i ==> #[trigger] seen_verified(accounts[batch[k] as int], accs[batch[k] as int], params)
            &&& forall|j: int| 0 <= j < accounts.len() && (forall|k: int| 0 <= k < i ==> batch[k] != j) ==> #[trigger] accs[j] == accounts[j]
        },
    decreases i,
{
    if i > 0 {
        lemma_verified_prefix(params, accounts, batch, i - 1);
        assert(batch.take(i).drop_last() =~= batch.take(i - 1));
        assert(batch.take(i).last() == batch[i - 1]);
        if let Ok((accs, d, m)) = verify_batch(params, accounts, batch.take(i)) {
            let (prev, pd, pm) = verify_batch(params, accounts, batch.take(i - 1))->Ok_0;
            let idx = batch[i - 1] as int;
            if forall|k: int| 0 <= k < i - 1 ==> batch[k] != idx {
                assert(prev[idx] == accounts[idx]);
            } else {
                let k0 = choose|k: int| 0 <= k < i - 1 && batch[k] == idx;
                assert(seen_verified(accounts[batch[k0] as int], prev[batch[k0] as int], params));
            }
            assert forall|k: int| 0 <= k < i implies #[trigger] seen_verified(accounts[batch[k] as int], accs[batch[k] as int], params) by {
                if batch[k] != idx {
                    assert(k < i - 1);
                }
            }
            assert forall|j: int| 0 <= j < accounts.len() && (forall|k: int| 0 <= k < i ==> batch[k] != j) implies #[trigger] accs[j] == accounts[j] by {
                assert(batch[i - 1] != j);
                assert(forall|k: int| 0 <= k < i - 1 ==> batch[k] != j);
            }
        }
    }
}

/// An account named twice in one batch is refused the second time with `AlreadyVerified`
/// (when everything before that second mention passes), just as a second single
/// verification of a verified bid is.
pub proof fn law_repeated_account_is_already_verified(
    params: BatchProcessParams,
    accounts: Seq<BidAccount>,
    batch: Seq<usize>,
    first: int,
    second: int,
)
    requires
        forall|k: int| 0 <= k < batch.len() ==> batch[k] < accounts.len(),
        0 <= first < second < batch.len(),
        batch[first] == batch[second],
        verify_batch(params, accounts, batch.take(second)) is Ok,
    ensures
        verify_batch(params, accounts, batch) == Err::<(Seq<BidAccount>, u64, bool), Error>(
            fail(ErrorCode::AlreadyVerified),
        ),
{
    lemma_verified_prefix(params, accounts, batch, second);
    let (accs, d, m) = verify_batch(params, accounts, batch.take(second))->Ok_0;
    assert(seen_verified(accounts[batch[first] as int], accs[batch[first] as int], params));
    assert(batch.take(second + 1).drop_last() =~= batch.take(second));
    assert(batch.take(second + 1).last() == batch[second]);
    lemma_verify_batch_error_persists(params, accounts, batch, second + 1, batch.len() as int);
    assert(batch.take(batch.len() as int) =~= batch);
}

/// A revealed bid at or above the clearing FDV that is not the named marginal bidder's
/// clears at the fill rate, exactly as a bid above the clearing FDV does: when its pro-rata
/// share `amount * fill_rate / 10000` buys at least one token at the clearing FDV, it is
/// allocated that share, the rest is refunded, and it receives the tokens the share buys.
pub proof fn law_bid_at_or_above_clearing_fills_pro_rata(
    params: BatchProcessParams,
    bid: SealedBid,
    higher_fdv: u64,
    nonce: u64,
)
    requires
        bid.bid_revealed,
        bid.max_fdv_plaintext matches Some(m) && m >= params.clearing_fdv,
        higher_fdv > params.clearing_fdv,
        params.clearing_fdv > 0,
        !holds_key(params.marginal_user, bid.user),
        user_allocation(params, bid) is Ok,
        (bid.amount as int * params.fill_rate as int / 10000) * params.token_supply as int
            / params.clearing_fdv as int >= 1,
    ensures
        ({
            let share = bid.amount as int * params.fill_rate as int / 10000;
            let verified = allocated_bid(bid, user_allocation(params, bid)->Ok_0, nonce);
            &&& verified.cleared
            &&& verified.allocation == share
            &&& verified.refund == bid.amount - share
            &&& verified.tokens == share * params.token_supply as int / params.clearing_fdv as int
            &&& user_allocation(params, bid) == user_allocation(
                params,
                SealedBid { max_fdv_plaintext: Some(higher_fdv), ..bid },
            )
        }),
{
    let share = bid.amount as int * params.fill_rate as int / 10000;
    let t = user_allocation(params, bid)->Ok_0;
    assert(pro_rata(bid.amount, params.fill_rate) == share);
    assert(t.0 as int == share);
    if share == 0 {
        assert(share * params.token_supply as int / params.clearing_fdv as int == 0) by (nonlinear_arith)
            requires
                share == 0,
                params.clearing_fdv > 0,
        ;
    }
    assert(tokens_for(t.0, params.token_supply, params.clearing_fdv) == Ok::<u64, crate::math::ArithmeticError>(t.4));
    assert(t.4 as int == (t.0 as int * params.token_supply as int) / params.clearing_fdv as int);
}

/// The named marginal bidder, bidding exactly the clearing FDV, is allocated the proposed
/// marginal allocation (when it buys at least one token), the rest of the commitment
/// refunded, and is marked marginal.
pub proof fn law_marginal_bidder_gets_marginal_allocation(params: BatchProcessParams, bid: SealedBid, nonce: u64)
    requires
        bid.max_fdv_plaintext == Some(params.clearing_fdv),
        params.clearing_fdv > 0,
        holds_key(params.marginal_user, bid.user),
        params.marginal_allocation matches Some(a) && a as int * params.token_supply as int
            / params.clearing_fdv as int >= 1,
        user_allocation(params, bid) is Ok,
    ensures
        ({
            let a = params.marginal_allocation->Some_0;
            let verified = allocated_bid(bid, user_allocation(params, bid)->Ok_0, nonce);
            &&& verified.allocation == a
            &&& verified.refund == bid.amount - a
            &&& verified.is_marginal
            &&& verified.cleared
            &&& verified.tokens == a as int * params.token_supply as int / params.clearing_fdv as int
        }),
{
    let a = params.marginal_allocation->Some_0;
    if a == 0 {
        assert(a as int * params.token_supply as int / params.clearing_fdv as int == 0) by (nonlinear_arith)
            requires
                a == 0,
                params.clearing_fdv > 0,
        ;
    }
}

/// Once a prefix of a batch fails, every longer prefix fails the same way.
proof fn lemma_verify_batch_error_persists(
    params: BatchProcessParams,
    accounts: Seq<BidAccount>,
    batch: Seq<usize>,
    i: int,
    j: int,
)
    requires
        0 <= i <= j <= batch.len(),
        verify_batch(params, accounts, batch.take(i)) is Err,
    ensures
        verify_batch(params, accounts, batch.take(j)) == verify_batch(params, accounts, batch.take(i)),
    decreases j - i,
{
    if j > i {
        lemma_verify_batch_error_persists(params, accounts, batch, i, j - 1);
        assert(batch.take(j).drop_last() =~= batch.take(j - 1));
    }
}

/// The checks of one account of a batch, and its allocation terms when they pass.
fn check_bid_account(params: &BatchProcessParams, account: &BidAccount) -> (r: Result<
    (u64, u64, bool, bool, u64),
    Error,
>)
    ensures
        match r {
            Err(e) => verify_one(*params, *account) == Err::<(SealedBid, u64, bool), Error>(e),
            Ok(terms) => account.bid matches Ok(bid) && user_allocation(*params, bid) == Ok::<
                (u64, u64, bool, bool, u64),
                ErrorCode,
            >(terms) && verify_one(*params, *account) == Ok::<(SealedBid, u64, bool), Error>(
                (
                    allocated_bid(bid, terms, params.settlement_nonce),
                    allocated_bid(bid, terms, params.settlement_nonce).allocation,
                    terms.2 && holds_key(params.marginal_user, bid.user),
                ),
            ),
        },
{
    if !account.owner.same_as(&params.program_id) {
        return Err(ProgramError::Custom(ErrorCode::InvalidParameters));
    }
    match load_bid::<ErrorCode>(account, &params.program_id) {
        Err(e) => Err(e),
        Ok(bid) => {
            if !bid.sale.same_as(&params.sale_key) {
                return Err(ProgramError::Custom(ErrorCode::InvalidParameters));
            }
            if !bid.is_initialized {
                return Err(ProgramError::Custom(ErrorCode::InvalidParameters));
            }
            if bid.amount == 0 {
                return Err(ProgramError::Custom(ErrorCode::InvalidAmount));
            }
            if bid.verified_for_nonce == params.settlement_nonce {
                return Err(ProgramError::Custom(ErrorCode::AlreadyVerified));
            }
            let expected = match try_find_program_address3(
                &SEALED_BID_SEED,
                &params.sale_key.0,
                &bid.user.0,
                &params.program_id,
            ) {
                Some((address, _)) => address,
                None => return Err(ProgramError::ProgramAddressNotFound),
            };
            if !account.key.same_as(&expected) {
                return Err(ProgramError::Custom(ErrorCode::InvalidParameters));
            }
            calculate_user_allocation(params, bid)
        },
    }
}

/// What a batch has made of an account it verified: the same address, owner and lamports,
/// the owner this program, an initialized bid of this sale with a commitment, and now
/// verified for the current proposal.
pub open spec fn seen_verified(before: BidAccount, after: BidAccount, params: BatchProcessParams) -> bool {
    &&& after.key == before.key
    &&& after.owner == before.owner
    &&& after.lamports == before.lamports
    &&& before.owner@ == params.program_id@
    &&& read_bid::<ErrorCode>(before, params.program_id) is Ok
    &&& before.bid matches Ok(ob)
    &&& ob.sale@ == params.sale_key@
    &&& ob.is_initialized
    &&& ob.amount != 0
    &&& after.bid matches Ok(vb)
    &&& vb.sale == ob.sale
    &&& vb.is_initialized == ob.is_initialized
    &&& vb.amount == ob.amount
    &&& vb.verified_for_nonce == params.settlement_nonce
}

/// Verifies up to ten bids against the current proposal, writing each one's allocation,
/// refund and tokens. `batch` lists, in order, the positions in `accounts` of the accounts
/// passed to the instruction. Every bid is checked before any is written, so on an error
/// the accounts and the sale are left as they were.
pub fn handler_batch_verify_and_allocate(
    ctx: &mut BatchVerifyAndAllocate,
    accounts: &mut Vec<BidAccount>,
    batch: &Vec<usize>,
) -> (r: Result<(), Error>)
    requires
        forall|k: int| 0 <= k < batch@.len() ==> batch@[k] < old(accounts)@.len(),
    ensures
        final(ctx).sale_key == old(ctx).sale_key,
        final(ctx).program_id == old(ctx).program_id,
        match r {
            Ok(()) => {
                &&& batch_verify_failure(
                    old(ctx).sale,
                    old(ctx).sale_key,
                    old(ctx).program_id,
                    old(accounts)@,
                    batch@,
                ) is None
                &&& verify_batch(
                    batch_params(old(ctx).sale, old(ctx).sale_key, old(ctx).program_id),
                    old(accounts)@,
                    batch@,
                ) matches Ok((accs, delta, marginal)) && final(accounts)@ == accs && final(ctx).sale
                    == after_verification(old(ctx).sale, delta, batch@.len(), marginal)
            },
            Err(e) => batch_verify_failure(
                old(ctx).sale,
                old(ctx).sale_key,
                old(ctx).program_id,
                old(accounts)@,
                batch@,
            ) == Some(e) && final(ctx).sale == old(ctx).sale && final(accounts)@ == old(accounts)@,
        },
{
    let status = ctx.sale.status;
    if !(status == SaleStatus::Proposed || status == SaleStatus::Verifying) {
        return Err(ProgramError::Custom(ErrorCode::InvalidSaleStatus));
    }
    let clearing_fdv = match ctx.sale.clearing_fdv {
        Some(v) => v,
        None => return Err(ProgramError::Custom(ErrorCode::InvalidSaleStatus)),
    };
    let fill_rate = match ctx.sale.fill_rate {
        Some(v) => v,
        None => return Err(ProgramError::Custom(ErrorCode::InvalidSaleStatus)),
    };
    let params = BatchProcessParams {
        sale_key: ctx.sale_key,
        program_id: ctx.program_id,
        clearing_fdv,
        fill_rate,
        settlement_nonce: ctx.sale.settlement_nonce,
        marginal_user: ctx.sale.marginal_user,
        marginal_allocation: ctx.sale.marginal_allocation,
        token_supply: ctx.sale.token_supply,
    };
    assert(params == batch_params(ctx.sale, ctx.sale_key, ctx.program_id));
    if batch.len() == 0 {
        return Err(ProgramError::Custom(ErrorCode::BatchEmpty));
    }
    if batch.len() > MAX_BATCH_SIZE {
        return Err(ProgramError::Custom(ErrorCode::BatchSizeTooLarge));
    }
    let ghost start = old(accounts)@;
    // First pass: every check and the tally, on the accounts as the earlier steps would
    // leave them, without writing anything.
    let ghost mut virt = start;
    let mut running_sum_delta: u64 = 0;
    let mut verified_count: u32 = 0;
    let mut marginal_user_verified = false;
    let mut i: usize = 0;
    while i < batch.len()
        invariant
            0 <= i <= batch@.len(),
            batch@.len() <= MAX_BATCH_SIZE,
            1 <= batch@.len(),
            accounts@ == start,
            start == old(accounts)@,
            forall|k: int| 0 <= k < batch@.len() ==> batch@[k] < start.len(),
            verified_count == i,
            ctx.sale == old(ctx).sale,
            ctx.sale_key == old(ctx).sale_key,
            ctx.program_id == old(ctx).program_id,
            verifying(old(ctx).sale.status),
            old(ctx).sale.clearing_fdv is Some,
            old(ctx).sale.fill_rate is Some,
            params == batch_params(old(ctx).sale, old(ctx).sale_key, old(ctx).program_id),
            verify_batch(params, start, batch@.take(i as int)) == Ok::<
                (Seq<BidAccount>, u64, bool),
                Error,
            >((virt, running_sum_delta, marginal_user_verified)),
            virt.len() == start.len(),
            forall|j: int|
                0 <= j < start.len() && !(exists|k: int| 0 <= k < i && batch@[k] == j) ==> #[trigger] virt[j]
                    == start[j],
            forall|k: int|
                0 <= k < i ==> #[trigger] seen_verified(start[batch@[k] as int], virt[batch@[k] as int], params),
        decreases batch@.len() - i,
    {
        let idx = batch[i];
        assert(batch@.take(i + 1).drop_last() =~= batch@.take(i as int));
        assert(batch@.take(i + 1).last() == batch@[i as int]);
        let mut k: usize = 0;
        let mut seen = false;
        while k < i
            invariant
                0 <= k <= i,
                i < batch@.len(),
                idx == batch@[i as int],
                seen <==> exists|m: int| 0 <= m < k && batch@[m] == idx,
            decreases i - k,
        {
            if batch[k] == idx {
                seen = true;
            }
            k = k + 1;
        }
        if seen {
            proof {
                let m = choose|m: int| 0 <= m < i && batch@[m] == idx;
                assert(seen_verified(start[batch@[m] as int], virt[batch@[m] as int], params));
                assert(verify_batch(params, start, batch@.take(i + 1)) == Err::<
                    (Seq<BidAccount>, u64, bool),
                    Error,
                >(fail(ErrorCode::AlreadyVerified)));
                lemma_verify_batch_error_persists(params, start, batch@, i + 1, batch@.len() as int);
                assert(batch@.take(batch@.len() as int) =~= batch@);
            }
            return Err(ProgramError::Custom(ErrorCode::AlreadyVerified));
        }
        assert(virt[idx as int] == start[idx as int]);
        let terms = match check_bid_account(&params, &accounts[idx]) {
            Ok(t) => t,
            Err(e) => {
                proof {
                    assert(verify_batch(params, start, batch@.take(i + 1)) == Err::<
                        (Seq<BidAccount>, u64, bool),
                        Error,
                    >(e));
                    lemma_verify_batch_error_persists(params, start, batch@, i + 1, batch@.len() as int);
                    assert(batch@.take(batch@.len() as int) =~= batch@);
                }
                return Err(e);
            },
        };
        let (allocation, refund, is_marginal, cleared, tokens) = terms;
        let final_allocation = if allocation > 0 && tokens == 0 {
            0
        } else {
            allocation
        };
        let user_is_marginal = match &accounts[idx].bid {
            Ok(b) => option_holds_key(&params.marginal_user, &b.user),
            Err(_) => false,
        };
        if is_marginal && user_is_marginal {
            marginal_user_verified = true;
        }
        running_sum_delta = match running_sum_delta.checked_add(final_allocation) {
            Some(v) => v,
            None => {
                proof {
                    assert(verify_batch(params, start, batch@.take(i + 1)) == Err::<
                        (Seq<BidAccount>, u64, bool),
                        Error,
                    >(fail(ErrorCode::ArithmeticOverflow)));
                    lemma_verify_batch_error_persists(params, start, batch@, i + 1, batch@.len() as int);
                    assert(batch@.take(batch@.len() as int) =~= batch@);
                }
                return Err(ProgramError::Custom(ErrorCode::ArithmeticOverflow));
            },
        };
        verified_count = verified_count + 1;
        proof {
            let prior = start[idx as int].bid->Ok_0;
            let before = virt;
            virt = virt.update(
                idx as int,
                BidAccount { bid: Ok(allocated_bid(prior, terms, params.settlement_nonce)), ..before[idx as int] },
            );
            assert forall|j: int|
                0 <= j < start.len() && !(exists|k: int| 0 <= k < i + 1 && batch@[k] == j) implies #[trigger] virt[j]
                == start[j] by {
                assert(j != idx);
                assert(!(exists|k: int| 0 <= k < i && batch@[k] == j)) by {
                    if exists|k: int| 0 <= k < i && batch@[k] == j {
                        let k = choose|k: int| 0 <= k < i && batch@[k] == j;
                        assert(0 <= k < i + 1 && batch@[k] == j);
                    }
                }
                assert(before[j] == start[j]);
            }
            assert forall|k: int| 0 <= k < i + 1 implies #[trigger] seen_verified(
                start[batch@[k] as int],
                virt[batch@[k] as int],
                params,
            ) by {
                if k < i {
                    assert(batch@[k] != idx);
                }
            }
        }
        i = i + 1;
    }
    assert(batch@.take(batch@.len() as int) =~= batch@);
    let new_running_sum = match ctx.sale.running_sum.checked_add(running_sum_delta) {
        Some(v) => v,
        None => return Err(ProgramError::Custom(ErrorCode::ArithmeticOverflow)),
    };
    let new_count = match ctx.sale.verification_count.checked_add(verified_count) {
        Some(v) => v,
        None => return Err(ProgramError::Custom(ErrorCode::ArithmeticOverflow)),
    };
    // Second pass: every check passed, so write each allocation in turn.
    let mut i: usize = 0;
    while i < batch.len()
        invariant
            0 <= i <= batch@.len(),
            batch@.len() <= MAX_BATCH_SIZE,
            accounts@.len() == start.len(),
            forall|k: int| 0 <= k < batch@.len() ==> batch@[k] < start.len(),
            verify_batch(params, start, batch@) == Ok::<(Seq<BidAccount>, u64, bool), Error>(
                (virt, running_sum_delta, marginal_user_verified),
            ),
            verify_batch(params, start, batch@.take(i as int)) is Ok,
            verify_batch(params, start, batch@.take(i as int))->Ok_0.0 == accounts@,
        decreases batch@.len() - i,
    {
        let idx = batch[i];
        assert(batch@.take(i + 1).drop_last() =~= batch@.take(i as int));
        assert(batch@.take(i + 1).last() == batch@[i as int]);
        proof {
            if verify_batch(params, start, batch@.take(i + 1)) is Err {
                lemma_verify_batch_error_persists(params, start, batch@, i + 1, batch@.len() as int);
                assert(batch@.take(batch@.len() as int) =~= batch@);
            }
        }
        let ghost before = accounts@;
        let terms = match check_bid_account(&params, &accounts[idx]) {
            Ok(t) => t,
            Err(e) => {
                proof {
                    assert(false);
                }
                return Err(e);
            },
        };
        let (allocation, refund, is_marginal, cleared, tokens) = terms;
        let mut taken: Result<SealedBid, AccountDataError> = Err(AccountDataError::DidNotDeserialize);
        std::mem::swap(&mut taken, &mut accounts[idx].bid);
        let mut bid = match taken {
            Ok(b) => b,
            Err(_) => {
                proof {
                    assert(false);
                }
                return Err(ProgramError::AccountDidNotDeserialize);
            },
        };
        let ghost prior = bid;
        if allocation > 0 && tokens == 0 {
            bid.cleared = false;
            bid.allocation = 0;
            bid.refund = bid.amount;
            bid.tokens = 0;
        } else {
            bid.cleared = cleared;
            bid.allocation = allocation;
            bid.refund = refund;
            bid.tokens = tokens;
        }
        bid.is_marginal = is_marginal;
        bid.verified_for_nonce = params.settlement_nonce;
        assert(bid == allocated_bid(prior, terms, params.settlement_nonce));
        accounts[idx].bid = Ok(bid);
        assert(accounts@ =~= before.update(
            idx as int,
            BidAccount { bid: Ok(allocated_bid(prior, terms, params.settlement_nonce)), ..before[idx as int] },
        ));
        i = i + 1;
    }
    assert(batch@.take(batch@.len() as int) =~= batch@);
    ctx.sale.running_sum = new_running_sum;
    ctx.sale.verification_count = new_count;
    if marginal_user_verified {
        ctx.sale.marginal_user_verified = true;
    }
    if ctx.sale.status == SaleStatus::Proposed {
        ctx.sale.status = SaleStatus::Verifying;
    }
    Ok(())
}

} // verus!
