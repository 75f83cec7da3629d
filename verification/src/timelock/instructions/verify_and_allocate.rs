use vstd::prelude::*;

use crate::program_error::{AccountDataError, ProgramError};
use crate::pubkey::{holds_key, program_address, Pubkey};
use crate::timelock::errors::{fail, Error, ErrorCode};
use crate::timelock::instructions::batch_verify_and_allocate::{
    after_verification,
    allocated_bid,
    batch_params,
    batch_verify_failure,
    calculate_user_allocation,
    sealed_bid_address,
    user_allocation,
    verify_batch,
    verifying,
    BatchProcessParams,
    MAX_BATCH_SIZE,
};
use crate::timelock::state::{read_bid, BidAccount, Sale, SaleStatus, SealedBid, SEALED_BID_SEED};

verus! {

/// The accounts of a single verification: the sale, its address, and the bid.
pub struct VerifyAndAllocate {
    pub sale: Sale,
    pub sale_key: Pubkey,
    pub sealed_bid: SealedBid,
}

/// The proposal terms recorded on the sale, for a bid verified on its own.
pub open spec fn single_params(sale: Sale, sale_key: Pubkey) -> BatchProcessParams {
    BatchProcessParams {
        sale_key: sale_key,
        program_id: sale_key,
        clearing_fdv: sale.clearing_fdv->Some_0,
        fill_rate: sale.fill_rate->Some_0,
        settlement_nonce: sale.settlement_nonce,
        marginal_user: sale.marginal_user,
        marginal_allocation: sale.marginal_allocation,
        token_supply: sale.token_supply,
    }
}

/// Why verifying one bid fails, checked in this order; `None` when it succeeds.
pub open spec fn verify_and_allocate_failure(sale: Sale, sale_key: Pubkey, bid: SealedBid) -> Option<
    Error,
> {
    if !verifying(sale.status) {
        Some(fail(ErrorCode::InvalidSaleStatus))
    } else if bid.sale@ != sale_key@ || !bid.is_initialized {
        Some(fail(ErrorCode::InvalidParameters))
    } else if bid.amount == 0 {
        Some(fail(ErrorCode::InvalidAmount))
    } else if bid.verified_for_nonce == sale.settlement_nonce {
        Some(fail(ErrorCode::AlreadyVerified))
    } else if sale.clearing_fdv is None || sale.fill_rate is None {
        Some(fail(ErrorCode::InvalidSaleStatus))
    } else {
        match user_allocation(single_params(sale, sale_key), bid) {
            Err(c) => Some(fail(c)),
            Ok(terms) => {
                let verified = allocated_bid(bid, terms, sale.settlement_nonce);
                if sale.running_sum + verified.allocation > u64::MAX {
                    Some(fail(ErrorCode::ArithmeticOverflow))
                } else if sale.verification_count + 1 > u32::MAX {
                    Some(fail(ErrorCode::ArithmeticOverflow))
                } else {
                    None
                }
            },
        }
    }
}

/// Verifies one bid against the current proposal and writes its allocation, refund and
/// tokens; the allocation is added to the sale's running sum.
#[verifier::spinoff_prover]
#[verifier::rlimit(40)]
pub fn handler_verify_and_allocate(ctx: &mut VerifyAndAllocate) -> (r: Result<(), Error>)
    ensures
        final(ctx).sale_key == old(ctx).sale_key,
        match r {
            Ok(()) => {
                &&& verify_and_allocate_failure(old(ctx).sale, old(ctx).sale_key, old(ctx).sealed_bid)
                    is None
                &&& user_allocation(
                    single_params(old(ctx).sale, old(ctx).sale_key),
                    old(ctx).sealed_bid,
                ) matches Ok(terms) && final(ctx).sealed_bid == allocated_bid(
                    old(ctx).sealed_bid,
                    terms,
                    old(ctx).sale.settlement_nonce,
                ) && final(ctx).sale == after_verification(
                    old(ctx).sale,
                    final(ctx).sealed_bid.allocation,
                    1,
                    terms.2,
                )
            },
            Err(e) => verify_and_allocate_failure(old(ctx).sale, old(ctx).sale_key, old(ctx).sealed_bid)
                == Some(e) && *final(ctx) == *old(ctx),
        },
{
    let status = ctx.sale.status;
    if !(status == SaleStatus::Proposed || status == SaleStatus::Verifying) {
        return Err(ProgramError::Custom(ErrorCode::InvalidSaleStatus));
    }
    if !ctx.sealed_bid.sale.same_as(&ctx.sale_key) || !ctx.sealed_bid.is_initialized {
        return Err(ProgramError::Custom(ErrorCode::InvalidParameters));
    }
    if ctx.sealed_bid.amount == 0 {
        return Err(ProgramError::Custom(ErrorCode::InvalidAmount));
    }
    if ctx.sealed_bid.verified_for_nonce == ctx.sale.settlement_nonce {
        return Err(ProgramError::Custom(ErrorCode::AlreadyVerified));
    }
    let clearing_fdv = match ctx.sale.clearing_fdv {
        Some(v) => v,
        None => return Err(ProgramError::Custom(ErrorCode::InvalidSaleStatus)),
    };
    let fill_rate = match ctx.sale.fill_rate {
        Some(v) => v,
        None => return Err(ProgramError::Custom(ErrorCode::InvalidSaleStatus)),
    };
    let params = BatchProcessParams {
        sale_key: ctx.sale_key,
        program_id: ctx.sale_key,
        clearing_fdv,
        fill_rate,
        settlement_nonce: ctx.sale.settlement_nonce,
        marginal_user: ctx.sale.marginal_user,
        marginal_allocation: ctx.sale.marginal_allocation,
        token_supply: ctx.sale.token_supply,
    };
    let (allocation, refund, is_marginal, cleared, tokens) = calculate_user_allocation(
        &params,
        &ctx.sealed_bid,
    )?;
    let dust = allocation > 0 && tokens == 0;
    let final_allocation = if dust {
        0
    } else {
        allocation
    };
    let running_sum = match ctx.sale.running_sum.checked_add(final_allocation) {
        Some(v) => v,
        None => return Err(ProgramError::Custom(ErrorCode::ArithmeticOverflow)),
    };
    let verification_count = match ctx.sale.verification_count.checked_add(1) {
        Some(v) => v,
        None => return Err(ProgramError::Custom(ErrorCode::ArithmeticOverflow)),
    };
    if dust {
        ctx.sealed_bid.cleared = false;
        ctx.sealed_bid.allocation = 0;
        ctx.sealed_bid.refund = ctx.sealed_bid.amount;
        ctx.sealed_bid.tokens = 0;
    } else {
        ctx.sealed_bid.cleared = cleared;
        ctx.sealed_bid.allocation = allocation;
        ctx.sealed_bid.refund = refund;
        ctx.sealed_bid.tokens = tokens;
    }
    ctx.sealed_bid.is_marginal = is_marginal;
    ctx.sealed_bid.verified_for_nonce = ctx.sale.settlement_nonce;
    if is_marginal {
        ctx.sale.marginal_user_verified = true;
    }
    ctx.sale.running_sum = running_sum;
    ctx.sale.verification_count = verification_count;
    if ctx.sale.status == SaleStatus::Proposed {
        ctx.sale.status = SaleStatus::Verifying;
    }
    Ok(())
}

/// The sale and the bids after verifying `bids` one after another, each with the single-bid
/// instruction; `None` when one of those calls fails.
pub open spec fn verify_singly(sale: Sale, sale_key: Pubkey, bids: Seq<SealedBid>) -> Option<
    (Sale, Seq<SealedBid>),
>
    decreases bids.len(),
{
    if bids.len() == 0 {
        Some((sale, Seq::empty()))
    } else {
        match verify_singly(sale, sale_key, bids.drop_last()) {
            None => None,
            Some((s, out)) => if verify_and_allocate_failure(s, sale_key, bids.last()) is Some {
                None
            } else {
                let terms = user_allocation(single_params(s, sale_key), bids.last())->Ok_0;
                let verified = allocated_bid(bids.last(), terms, s.settlement_nonce);
                Some((after_verification(s, verified.allocation, 1, terms.2), out.push(verified)))
            },
        }
    }
}

/// The bids of the accounts at the indices of `batch`.
pub open spec fn bids_at(accounts: Seq<BidAccount>, batch: Seq<usize>) -> Seq<SealedBid> {
    Seq::new(batch.len(), |k: int| accounts[batch[k] as int].bid->Ok_0)
}

/// An account that passes the checks a batch makes and a single verification does not: it
/// belongs to this program, loads as a sealed bid, and lives at that bid's address.
pub open spec fn well_placed(account: BidAccount, sale_key: Pubkey, program_id: Pubkey) -> bool {
    &&& account.owner@ == program_id@
    &&& read_bid::<ErrorCode>(account, program_id) is Ok
    &&& account.bid is Ok
    &&& program_address(
        seq![SEALED_BID_SEED@, sale_key@, account.bid->Ok_0.user@],
        program_id@,
    ) matches Some((address, _))
    &&& address == account.key@
}

/// The allocation terms do not depend on the program id or the sale's address.
proof fn lemma_terms_ignore_addresses(p: BatchProcessParams, q: BatchProcessParams, bid: SealedBid)
    requires
        p.clearing_fdv == q.clearing_fdv,
        p.fill_rate == q.fill_rate,
        p.marginal_user == q.marginal_user,
        p.marginal_allocation == q.marginal_allocation,
        p.token_supply == q.token_supply,
    ensures
        user_allocation(p, bid) == user_allocation(q, bid),
        user_allocation(p, bid) matches Ok(t) && t.2 ==> holds_key(p.marginal_user, bid.user),
{
}

proof fn lemma_batch_matches_singles(
    sale: Sale,
    sale_key: Pubkey,
    program_id: Pubkey,
    accounts: Seq<BidAccount>,
    batch: Seq<usize>,
    i: int,
)
    requires
        0 <= i <= batch.len(),
        verifying(sale.status),
        sale.clearing_fdv is Some,
        sale.fill_rate is Some,
        forall|k: int| 0 <= k < batch.len() ==> batch[k] < accounts.len(),
        forall|a: int, b: int| 0 <= a < b < batch.len() ==> batch[a] != batch[b],
        forall|k: int| 0 <= k < batch.len() ==> well_placed(#[trigger] accounts[batch[k] as int], sale_key, program_id),
    ensures
        verify_singly(sale, sale_key, bids_at(accounts, batch).take(i)) matches Some((s, out)) ==> {
            &&& verify_batch(batch_params(sale, sale_key, program_id), accounts, batch.take(i)) matches Ok((accs, d, m))
            &&& s == if i == 0 {
                sale
            } else {
                after_verification(sale, d, i as nat, m)
            }
            &&& sale.running_sum + d <= u64::MAX
            &&& sale.verification_count + i <= u32::MAX
            &&& out.len() == i
            &&& accs.len() == accounts.len()
            &&& forall|k: int| 0 <= k < i ==> #[trigger] accs[batch[k] as int] == (BidAccount { bid: Ok(out[k]), ..accounts[batch[k] as int] })
            &&& forall|j: int| 0 <= j < accounts.len() && (forall|k: int| 0 <= k < i ==> batch[k] != j) ==> #[trigger] accs[j] == accounts[j]
        },
        verify_batch(batch_params(sale, sale_key, program_id), accounts, batch.take(i)) matches Ok((accs, d, m))
            && sale.running_sum + d <= u64::MAX && sale.verification_count + i <= u32::MAX
            ==> verify_singly(sale, sale_key, bids_at(accounts, batch).take(i)) is Some,
    decreases i,
{
    let p = batch_params(sale, sale_key, program_id);
    let bids = bids_at(accounts, batch);
    if i > 0 {
        lemma_batch_matches_singles(sale, sale_key, program_id, accounts, batch, i - 1);
        assert(batch.take(i).drop_last() =~= batch.take(i - 1));
        assert(batch.take(i).last() == batch[i - 1]);
        assert(bids.take(i).drop_last() =~= bids.take(i - 1));
        assert(bids.take(i).last() == bids[i - 1]);
        let idx = batch[i - 1] as int;
        let bid = accounts[idx].bid->Ok_0;
        assert(bids[i - 1] == bid);
        assert(well_placed(accounts[batch[i - 1] as int], sale_key, program_id));
        assert forall|k: int| 0 <= k < i - 1 implies batch[k] != idx by {
            assert(batch[k] != batch[i - 1]);
        }
        let prev_singles = verify_singly(sale, sale_key, bids.take(i - 1));
        let prev_batch = verify_batch(p, accounts, batch.take(i - 1));
        if let Some((s, out)) = prev_singles {
            lemma_terms_ignore_addresses(p, single_params(s, sale_key), bid);
        }
        if let Ok((accs, d, m)) = prev_batch {
            lemma_terms_ignore_addresses(p, single_params(sale, sale_key), bid);
            if verify_batch(p, accounts, batch.take(i)) is Ok {
                let (accs2, d2, m2) = verify_batch(p, accounts, batch.take(i))->Ok_0;
                assert(d <= d2);
            }
            if sale.running_sum + d <= u64::MAX && sale.verification_count + (i - 1) <= u32::MAX {
                let (s, out) = prev_singles->Some_0;
                assert(accs[idx] == accounts[idx]);
                let t = user_allocation(p, bid);
                assert(user_allocation(single_params(s, sale_key), bid) == t) by {
                    lemma_terms_ignore_addresses(p, single_params(s, sale_key), bid);
                }
            }
        }
        if let Some((s, out)) = verify_singly(sale, sale_key, bids.take(i)) {
            let (s0, out0) = prev_singles->Some_0;
            let (accs, d, m) = prev_batch->Ok_0;
            assert(accs[idx] == accounts[idx]);
            lemma_terms_ignore_addresses(p, single_params(s0, sale_key), bid);
            let terms = user_allocation(p, bid)->Ok_0;
            let verified = allocated_bid(bid, terms, p.settlement_nonce);
            assert(out =~= out0.push(verified));
            let accs2 = accs.update(idx, BidAccount { bid: Ok(verified), ..accs[idx] });
            assert forall|k: int| 0 <= k < i implies #[trigger] accs2[batch[k] as int] == (BidAccount { bid: Ok(out[k]), ..accounts[batch[k] as int] }) by {
                if k < i - 1 {
                    assert(batch[k] != batch[i - 1]);
                }
            }
            assert forall|j: int| 0 <= j < accounts.len() && (forall|k: int| 0 <= k < i ==> batch[k] != j) implies #[trigger] accs2[j] == accounts[j] by {
                assert(batch[i - 1] != j);
                assert(forall|k: int| 0 <= k < i - 1 ==> batch[k] != j);
            }
        }
    } else {
        assert(batch.take(0) =~= Seq::<usize>::empty());
        assert(bids.take(0) =~= Seq::<SealedBid>::empty());
    }
}

/// A batch verification is the same bids verified one by one, in turn, with the single-bid
/// instruction: given accounts that pass the batch's own checks (owned by the program, at
/// their bids' addresses) and no account named twice, the batch succeeds exactly when the
/// sequence of single verifications does, and then leaves the sale and every bid as that
/// sequence does.
pub proof fn law_batch_is_singles_in_turn(
    sale: Sale,
    sale_key: Pubkey,
    program_id: Pubkey,
    accounts: Seq<BidAccount>,
    batch: Seq<usize>,
)
    requires
        verifying(sale.status),
        sale.clearing_fdv is Some,
        sale.fill_rate is Some,
        1 <= batch.len() <= MAX_BATCH_SIZE,
        forall|k: int| 0 <= k < batch.len() ==> batch[k] < accounts.len(),
        forall|a: int, b: int| 0 <= a < b < batch.len() ==> batch[a] != batch[b],
        forall|k: int| 0 <= k < batch.len() ==> well_placed(#[trigger] accounts[batch[k] as int], sale_key, program_id),
    ensures
        batch_verify_failure(sale, sale_key, program_id, accounts, batch) is None <==> verify_singly(
            sale,
            sale_key,
            bids_at(accounts, batch),
        ) is Some,
        verify_singly(sale, sale_key, bids_at(accounts, batch)) matches Some((s, out)) ==> {
            &&& verify_batch(batch_params(sale, sale_key, program_id), accounts, batch) matches Ok((accs, d, m))
            &&& s == after_verification(sale, d, batch.len(), m)
            &&& forall|k: int| 0 <= k < batch.len() ==> #[trigger] accs[batch[k] as int].bid == Ok::<SealedBid, AccountDataError>(out[k])
        },
{
    lemma_batch_matches_singles(sale, sale_key, program_id, accounts, batch, batch.len() as int);
    assert(batch.take(batch.len() as int) =~= batch);
    assert(bids_at(accounts, batch).take(batch.len() as int) =~= bids_at(accounts, batch));
}

/// A bid verified once is refused with `AlreadyVerified` by a second single verification
/// against the same proposal.
pub proof fn law_second_verification_is_refused(sale: Sale, sale_key: Pubkey, bid: SealedBid)
    requires
        verify_and_allocate_failure(sale, sale_key, bid) is None,
    ensures
        ({
            let terms = user_allocation(single_params(sale, sale_key), bid)->Ok_0;
            let verified = allocated_bid(bid, terms, sale.settlement_nonce);
            verify_and_allocate_failure(
                after_verification(sale, verified.allocation, 1, terms.2),
                sale_key,
                verified,
            ) == Some(fail(ErrorCode::AlreadyVerified))
        }),
{
}

} // verus!
