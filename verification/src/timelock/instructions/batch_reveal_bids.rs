use vstd::prelude::*;

use crate::hashing::{push_bytes, push_u64_le, sha256, sha256_digest, u64_le_bytes};
use crate::merkle::bytes32_equal;
use crate::program_error::{AccountDataError, ProgramError};
use crate::pubkey::{program_address, try_find_program_address3, Pubkey};
use crate::timelock::drand::{all_bytes_are, verify_drand_signature, QUICKNET_CHAIN_HASH};
use crate::timelock::errors::{fail, Error, ErrorCode};
use crate::timelock::state::{load_bid, read_bid, BidAccount, Sale, SaleStatus, SealedBid, SEALED_BID_SEED};

verus! {

/// Most bids revealed in one batch.
pub const MAX_REVEAL_BATCH_SIZE: usize = 20;

/// A decrypted bid: whose it is, the maximum FDV, and the salt it was committed with.
#[derive(Clone, Copy, Debug)]
pub struct RevealedBidData {
    pub user: Pubkey,
    pub max_fdv: u64,
    pub salt: [u8; 16],
}

/// The accounts of a batch reveal: the sale, its address, and the program's id.
pub struct BatchRevealBids {
    pub sale: Sale,
    pub sale_key: Pubkey,
    pub program_id: Pubkey,
}

/// The commitment to a bid: `sha256(max_fdv as little-endian u64 || salt)`.
pub open spec fn bid_commitment(max_fdv: u64, salt: Seq<u8>) -> Seq<u8> {
    sha256(u64_le_bytes(max_fdv) + salt)
}

/// Revealing one account: its checks, in order, and on success the bid with its maximum FDV
/// written.
pub open spec fn reveal_one(
    sale: Sale,
    sale_key: Pubkey,
    program_id: Pubkey,
    drand_round: u64,
    account: BidAccount,
    revealed: RevealedBidData,
) -> Result<SealedBid, Error> {
    match read_bid::<ErrorCode>(account, program_id) {
            Err(e) => Err(e),
            Ok(bid) => if bid.sale@ != sale_key@ {
                Err(fail(ErrorCode::InvalidParameters))
            } else if bid.user@ != revealed.user@ {
                Err(fail(ErrorCode::InvalidParameters))
            } else if bid.bid_revealed {
                Err(fail(ErrorCode::BidAlreadyRevealed))
            } else if bid.drand_round != drand_round {
                Err(fail(ErrorCode::InvalidDrandRound))
            } else {
                match program_address(seq![SEALED_BID_SEED@, sale_key@, bid.user@], program_id@) {
                    None => Err(ProgramError::ProgramAddressNotFound),
                    Some((address, _)) => if address != account.key@ {
                        Err(fail(ErrorCode::InvalidParameters))
                    } else if revealed.max_fdv < sale.fdv_min || revealed.max_fdv > sale.fdv_max {
                        Err(fail(ErrorCode::InvalidFdvRange))
                    } else if bid_commitment(revealed.max_fdv, revealed.salt@) != bid.hash_commitment@ {
                        Err(fail(ErrorCode::HashCommitmentMismatch))
                    } else {
                        Ok(
                            SealedBid {
                                max_fdv_plaintext: Some(revealed.max_fdv),
                                bid_revealed: true,
                                ..bid
                            },
                        )
                    },
                }
            },
    }
}

/// Revealing the accounts at the indices of `batch` in turn, the `k`-th with the `k`-th
/// decrypted bid. A repeated account is read as the earlier steps left it.
pub open spec fn reveal_batch(
    sale: Sale,
    sale_key: Pubkey,
    program_id: Pubkey,
    drand_round: u64,
    accounts: Seq<BidAccount>,
    batch: Seq<usize>,
    revealed: Seq<RevealedBidData>,
) -> Result<Seq<BidAccount>, Error>
    decreases batch.len(),
{
    if batch.len() == 0 {
        Ok(accounts)
    } else {
        match reveal_batch(
            sale,
            sale_key,
            program_id,
            drand_round,
            accounts,
            batch.drop_last(),
            revealed,
        ) {
            Err(e) => Err(e),
            Ok(accs) => {
                let i = batch.last() as int;
                match reveal_one(
                    sale,
                    sale_key,
                    program_id,
                    drand_round,
                    accs[i],
                    revealed[batch.len() - 1],
                ) {
                    Err(e) => Err(e),
                    Ok(bid) => Ok(accs.update(i, BidAccount { bid: Ok(bid), ..accs[i] })),
                }
            },
        }
    }
}

/// Why a batch reveal fails, checked in this order; `None` when it succeeds.
pub open spec fn batch_reveal_failure(
    sale: Sale,
    sale_key: Pubkey,
    program_id: Pubkey,
    drand_round: u64,
    drand_signature: Seq<u8>,
    accounts: Seq<BidAccount>,
    batch: Seq<usize>,
    revealed: Seq<RevealedBidData>,
) -> Option<Error> {
    if sale.status != SaleStatus::Revealing {
        Some(fail(ErrorCode::SaleNotRevealing))
    } else if batch.len() == 0 || batch.len() > MAX_REVEAL_BATCH_SIZE {
        Some(fail(ErrorCode::InvalidParameters))
    } else if revealed.len() != batch.len() {
        Some(fail(ErrorCode::InvalidParameters))
    } else if drand_round != sale.drand_reveal_round {
        Some(fail(ErrorCode::InvalidDrandRound))
    } else if sale.drand_chain_hash@ != QUICKNET_CHAIN_HASH@ || all_bytes_are(drand_signature, 0)
        || all_bytes_are(drand_signature, 0xff) {
        Some(fail(ErrorCode::InvalidDrandSignature))
    } else {
        match reveal_batch(sale, sale_key, program_id, drand_round, accounts, batch, revealed) {
            Err(e) => Some(e),
            Ok(_) => if sale.reveal_count + batch.len() > u32::MAX {
                Some(fail(ErrorCode::ArithmeticOverflow))
            } else {
                None
            },
        }
    }
}

/// The sale after a batch of `count` reveals at time `now`: once every committed bid is
/// revealed, the commitment phase ends.
pub open spec fn after_reveals(sale: Sale, count: nat, now: i64) -> Sale {
    let reveal_count = (sale.reveal_count + count) as u32;
    if reveal_count >= sale.total_users {
        Sale {
            reveal_count: reveal_count,
            all_bids_revealed: true,
            status: SaleStatus::CommitmentEnded,
            commitment_ended_at: now,
            ..sale
        }
    } else {
        Sale { reveal_count: reveal_count, ..sale }
    }
}

/// Once a prefix of a batch fails, every longer prefix fails the same way.
proof fn lemma_reveal_batch_error_persists(
    sale: Sale,
    sale_key: Pubkey,
    program_id: Pubkey,
    drand_round: u64,
    accounts: Seq<BidAccount>,
    batch: Seq<usize>,
    revealed: Seq<RevealedBidData>,
    i: int,
    j: int,
)
    requires
        0 <= i <= j <= batch.len(),
        reveal_batch(sale, sale_key, program_id, drand_round, accounts, batch.take(i), revealed)
            is Err,
    ensures
        reveal_batch(sale, sale_key, program_id, drand_round, accounts, batch.take(j), revealed)
            == reveal_batch(sale, sale_key, program_id, drand_round, accounts, batch.take(i), revealed),
    decreases j - i,
{
    if j > i {
        lemma_reveal_batch_error_persists(
            sale,
            sale_key,
            program_id,
            drand_round,
            accounts,
            batch,
            revealed,
            i,
            j - 1,
        );
        assert(batch.take(j).drop_last() =~= batch.take(j - 1));
    }
}

/// The commitment to a revealed bid.
fn commitment_of(revealed: &RevealedBidData) -> (h: [u8; 32])
    ensures
        h@ == bid_commitment(revealed.max_fdv, revealed.salt@),
{
    let mut message: Vec<u8> = Vec::new();
    push_u64_le(&mut message, revealed.max_fdv);
    push_bytes(&mut message, &revealed.salt);
    assert(message@ =~= u64_le_bytes(revealed.max_fdv) + revealed.salt@);
    sha256_digest(message.as_slice())
}

/// The checks of one account of a reveal batch.
fn check_reveal(
    sale: &Sale,
    sale_key: &Pubkey,
    program_id: &Pubkey,
    drand_round: u64,
    account: &BidAccount,
    revealed: &RevealedBidData,
) -> (r: Result<(), Error>)
    ensures
        match r {
            Err(e) => reveal_one(*sale, *sale_key, *program_id, drand_round, *account, *revealed)
                == Err::<SealedBid, Error>(e),
            Ok(()) => account.bid matches Ok(bid) && reveal_one(
                *sale,
                *sale_key,
                *program_id,
                drand_round,
                *account,
                *revealed,
            ) == Ok::<SealedBid, Error>(
                SealedBid { max_fdv_plaintext: Some(revealed.max_fdv), bid_revealed: true, ..bid },
            ),
        },
{
    match load_bid::<ErrorCode>(account, program_id) {
        Err(e) => Err(e),
        Ok(bid) => {
            if !bid.sale.same_as(sale_key) {
                return Err(ProgramError::Custom(ErrorCode::InvalidParameters));
            }
            if !bid.user.same_as(&revealed.user) {
                return Err(ProgramError::Custom(ErrorCode::InvalidParameters));
            }
            if bid.bid_revealed {
                return Err(ProgramError::Custom(ErrorCode::BidAlreadyRevealed));
            }
            if bid.drand_round != drand_round {
                return Err(ProgramError::Custom(ErrorCode::InvalidDrandRound));
            }
            let expected = match try_find_program_address3(
                &SEALED_BID_SEED,
                &sale_key.0,
                &bid.user.0,
                program_id,
            ) {
                Some((address, _)) => address,
                None => return Err(ProgramError::ProgramAddressNotFound),
            };
            if !account.key.same_as(&expected) {
                return Err(ProgramError::Custom(ErrorCode::InvalidParameters));
            }
            if revealed.max_fdv < sale.fdv_min || revealed.max_fdv > sale.fdv_max {
                return Err(ProgramError::Custom(ErrorCode::InvalidFdvRange));
            }
            let computed = commitment_of(revealed);
            if !bytes32_equal(&computed, &bid.hash_commitment) {
                return Err(ProgramError::Custom(ErrorCode::HashCommitmentMismatch));
            }
            Ok(())
        },
    }
}

/// An account with its bid revealed at `max_fdv`.
pub open spec fn revealed_account(account: BidAccount, max_fdv: u64) -> BidAccount {
    BidAccount {
        bid: Ok(
            SealedBid { max_fdv_plaintext: Some(max_fdv), bid_revealed: true, ..account.bid->Ok_0 },
        ),
        ..account
    }
}

/// What a batch has made of an account it revealed: the same address, owner and lamports,
/// a bid of this program and this sale, its user unchanged, and now revealed.
pub open spec fn seen_revealed(before: BidAccount, after: BidAccount, sale_key: Pubkey, program_id: Pubkey) -> bool {
    &&& after.key == before.key
    &&& after.owner == before.owner
    &&& after.lamports == before.lamports
    &&& read_bid::<ErrorCode>(before, program_id) is Ok
    &&& before.bid matches Ok(ob)
    &&& ob.sale@ == sale_key@
    &&& after.bid matches Ok(vb)
    &&& vb.bid_revealed
    &&& vb.user == ob.user
    &&& vb.sale == ob.sale
}

/// Reveals up to twenty bids with the drand beacon of the sale's reveal round: each
/// decrypted bid must match its account's hash commitment. When every committed bid has
/// been revealed, the commitment phase ends at `now`. `batch` lists, in order, the positions
/// in `accounts` of the accounts passed to the instruction. Every bid is checked before any
/// is written, so on an error the accounts and the sale are left as they were.
pub fn handler_batch_reveal_bids(
    ctx: &mut BatchRevealBids,
    accounts: &mut Vec<BidAccount>,
    batch: &Vec<usize>,
    drand_round: u64,
    drand_signature: [u8; 48],
    revealed_bids: &Vec<RevealedBidData>,
    now: i64,
) -> (r: Result<(), Error>)
    requires
        forall|k: int| 0 <= k < batch@.len() ==> batch@[k] < old(accounts)@.len(),
    ensures
        final(ctx).sale_key == old(ctx).sale_key,
        final(ctx).program_id == old(ctx).program_id,
        match r {
            Ok(()) => {
                &&& batch_reveal_failure(
                    old(ctx).sale,
                    old(ctx).sale_key,
                    old(ctx).program_id,
                    drand_round,
                    drand_signature@,
                    old(accounts)@,
                    batch@,
                    revealed_bids@,
                ) is None
                &&& reveal_batch(
                    old(ctx).sale,
                    old(ctx).sale_key,
                    old(ctx).program_id,
                    drand_round,
                    old(accounts)@,
                    batch@,
                    revealed_bids@,
                ) == Ok::<Seq<BidAccount>, Error>(final(accounts)@)
                &&& final(ctx).sale == after_reveals(old(ctx).sale, batch@.len(), now)
            },
            Err(e) => batch_reveal_failure(
                old(ctx).sale,
                old(ctx).sale_key,
                old(ctx).program_id,
                drand_round,
                drand_signature@,
                old(accounts)@,
                batch@,
                revealed_bids@,
            ) == Some(e) && final(ctx).sale == old(ctx).sale && final(accounts)@ == old(accounts)@,
        },
{
    if ctx.sale.status != SaleStatus::Revealing {
        return Err(ProgramError::Custom(ErrorCode::SaleNotRevealing));
    }
    if batch.len() == 0 || batch.len() > MAX_REVEAL_BATCH_SIZE {
        return Err(ProgramError::Custom(ErrorCode::InvalidParameters));
    }
    if revealed_bids.len() != batch.len() {
        return Err(ProgramError::Custom(ErrorCode::InvalidParameters));
    }
    if drand_round != ctx.sale.drand_reveal_round {
        return Err(ProgramError::Custom(ErrorCode::InvalidDrandRound));
    }
    verify_drand_signature(&ctx.sale.drand_chain_hash, drand_round, &drand_signature)?;
    let ghost sale = old(ctx).sale;
    let ghost sale_key = old(ctx).sale_key;
    let ghost program_id = old(ctx).program_id;
    let ghost start = old(accounts)@;
    // First pass: every check, on the accounts as the earlier steps would leave them,
    // without writing anything.
    let ghost mut virt = start;
    let mut i: usize = 0;
    while i < batch.len()
        invariant
            0 <= i <= batch@.len(),
            1 <= batch@.len() <= MAX_REVEAL_BATCH_SIZE,
            revealed_bids@.len() == batch@.len(),
            accounts@ == start,
            start == old(accounts)@,
            forall|k: int| 0 <= k < batch@.len() ==> batch@[k] < start.len(),
            ctx.sale == sale,
            ctx.sale_key == sale_key,
            ctx.program_id == program_id,
            sale == old(ctx).sale,
            sale_key == old(ctx).sale_key,
            program_id == old(ctx).program_id,
            batch_reveal_failure(
                sale,
                sale_key,
                program_id,
                drand_round,
                drand_signature@,
                start,
                batch@,
                revealed_bids@,
            ) == match reveal_batch(
                sale,
                sale_key,
                program_id,
                drand_round,
                start,
                batch@,
                revealed_bids@,
            ) {
                Err(e) => Some(e),
                Ok(_) => if sale.reveal_count + batch@.len() > u32::MAX {
                    Some(fail(ErrorCode::ArithmeticOverflow))
                } else {
                    None
                },
            },
            reveal_batch(sale, sale_key, program_id, drand_round, start, batch@.take(i as int), revealed_bids@)
                == Ok::<Seq<BidAccount>, Error>(virt),
            virt.len() == start.len(),
            forall|a: int, b: int| 0 <= a < b < i ==> batch@[a] != batch@[b],
            forall|j: int|
                0 <= j < start.len() && !(exists|k: int| 0 <= k < i && batch@[k] == j) ==> #[trigger] virt[j]
                    == start[j],
            forall|k: int|
                0 <= k < i ==> #[trigger] seen_revealed(start[batch@[k] as int], virt[batch@[k] as int], sale_key, program_id),
        decreases batch@.len() - i,
    {
        let idx = batch[i];
        assert(batch@.take(i + 1).drop_last() =~= batch@.take(i as int));
        assert(batch@.take(i + 1).last() == batch@[i as int]);
        assert(batch@.take(i + 1).len() - 1 == i);
        let mut k: usize = 0;
        let mut seen = false;
        while k < i
            invariant
                0 <= k <= i,
                i < batch@.len(),
                idx == batch@[i as int],
                seen <==> exists|m: int| 0 <= m < k && batch@[m] == idx,
            decreases i - k,
        {
            if batch[k] == idx {
                seen = true;
            }
            k = k + 1;
        }
        let outcome: Result<(), Error> = if seen {
            let ghost m = choose|m: int| 0 <= m < i && batch@[m] == idx;
            assert(seen_revealed(start[batch@[m] as int], virt[batch@[m] as int], sale_key, program_id));
            match &accounts[idx].bid {
                Ok(ob) => if !ob.user.same_as(&revealed_bids[i].user) {
                    Err(ProgramError::Custom(ErrorCode::InvalidParameters))
                } else {
                    Err(ProgramError::Custom(ErrorCode::BidAlreadyRevealed))
                },
                Err(_) => Err(ProgramError::AccountDidNotDeserialize),
            }
        } else {
            assert(virt[idx as int] == start[idx as int]);
            check_reveal(
                &ctx.sale,
                &ctx.sale_key,
                &ctx.program_id,
                drand_round,
                &accounts[idx],
                &revealed_bids[i],
            )
        };
        match outcome {
            Ok(()) => {},
            Err(e) => {
                assert(reveal_one(sale, sale_key, program_id, drand_round, virt[idx as int], revealed_bids@[i as int])
                    == Err::<SealedBid, Error>(e));
                proof {
                    lemma_reveal_batch_error_persists(
                        sale,
                        sale_key,
                        program_id,
                        drand_round,
                        start,
                        batch@,
                        revealed_bids@,
                        i + 1,
                        batch@.len() as int,
                    );
                    assert(batch@.take(batch@.len() as int) =~= batch@);
                }
                return Err(e);
            },
        }
        proof {
            let ghost next = revealed_account(virt[idx as int], revealed_bids@[i as int].max_fdv);
            let ghost before = virt;
            virt = virt.update(idx as int, next);
            assert forall|j: int|
                0 <= j < start.len() && !(exists|k: int| 0 <= k < i + 1 && batch@[k] == j) implies #[trigger] virt[j]
                == start[j] by {
                assert(j != idx);
                assert(!(exists|k: int| 0 <= k < i && batch@[k] == j)) by {
                    if exists|k: int| 0 <= k < i && batch@[k] == j {
                        let k = choose|k: int| 0 <= k < i && batch@[k] == j;
                        assert(0 <= k < i + 1 && batch@[k] == j);
                    }
                }
                assert(before[j] == start[j]);
            }
            assert forall|k: int| 0 <= k < i + 1 implies #[trigger] seen_revealed(
                start[batch@[k] as int],
                virt[batch@[k] as int],
                sale_key,
                program_id,
            ) by {
                if k < i {
                    assert(batch@[k] != idx);
                }
            }
        }
        i = i + 1;
    }
    assert(batch@.take(batch@.len() as int) =~= batch@);
    let reveal_count = match ctx.sale.reveal_count.checked_add(i as u32) {
        Some(v) => v,
        None => return Err(ProgramError::Custom(ErrorCode::ArithmeticOverflow)),
    };
    // Second pass: every check passed, so write each reveal in turn.
    let mut i: usize = 0;
    while i < batch.len()
        invariant
            0 <= i <= batch@.len(),
            batch@.len() <= MAX_REVEAL_BATCH_SIZE,
            revealed_bids@.len() == batch@.len(),
            accounts@.len() == start.len(),
            forall|k: int| 0 <= k < batch@.len() ==> batch@[k] < start.len(),
            reveal_batch(sale, sale_key, program_id, drand_round, start, batch@, revealed_bids@)
                == Ok::<Seq<BidAccount>, Error>(virt),
            reveal_batch(sale, sale_key, program_id, drand_round, start, batch@.take(i as int), revealed_bids@)
                == Ok::<Seq<BidAccount>, Error>(accounts@),
        decreases batch@.len() - i,
    {
        let idx = batch[i];
        assert(batch@.take(i + 1).drop_last() =~= batch@.take(i as int));
        assert(batch@.take(i + 1).last() == batch@[i as int]);
        assert(batch@.take(i + 1).len() - 1 == i);
        proof {
            if reveal_batch(sale, sale_key, program_id, drand_round, start, batch@.take(i + 1), revealed_bids@) is Err {
                lemma_reveal_batch_error_persists(
                    sale,
                    sale_key,
                    program_id,
                    drand_round,
                    start,
                    batch@,
                    revealed_bids@,
                    i + 1,
                    batch@.len() as int,
                );
                assert(batch@.take(batch@.len() as int) =~= batch@);
            }
        }
        let ghost before = accounts@;
        let max_fdv = revealed_bids[i].max_fdv;
        let mut taken: Result<SealedBid, AccountDataError> = Err(AccountDataError::DidNotDeserialize);
        std::mem::swap(&mut taken, &mut accounts[idx].bid);
        let mut bid = match taken {
            Ok(b) => b,
            Err(_) => {
                proof { assert(false); }
                return Err(ProgramError::AccountDidNotDeserialize);
            },
        };
        let ghost prior = bid;
        bid.max_fdv_plaintext = Some(max_fdv);
        bid.bid_revealed = true;
        accounts[idx].bid = Ok(bid);
        assert(accounts@ =~= before.update(
            idx as int,
            BidAccount {
                bid: Ok(SealedBid { max_fdv_plaintext: Some(max_fdv), bid_revealed: true, ..prior }),
                ..before[idx as int]
            },
        ));
        i = i + 1;
    }
    assert(batch@.take(batch@.len() as int) =~= batch@);
    ctx.sale.reveal_count = reveal_count;
    if ctx.sale.reveal_count >= ctx.sale.total_users {
        ctx.sale.all_bids_revealed = true;
        ctx.sale.status = SaleStatus::CommitmentEnded;
        ctx.sale.commitment_ended_at = now;
    }
    Ok(())
}

/// A prefix of a batch that does not name account `j` leaves it as it was.
proof fn lemma_reveal_batch_leaves_unnamed(
    sale: Sale,
    sale_key: Pubkey,
    program_id: Pubkey,
    drand_round: u64,
    accounts: Seq<BidAccount>,
    batch: Seq<usize>,
    revealed: Seq<RevealedBidData>,
    j: int,
    i: int,
)
    requires
        0 <= i <= batch.len(),
        0 <= j < accounts.len(),
        forall|k: int| 0 <= k < batch.len() ==> batch[k] < accounts.len(),
        forall|k: int| 0 <= k < i ==> batch[k] != j,
    ensures
        reveal_batch(sale, sale_key, program_id, drand_round, accounts, batch.take(i), revealed)
            matches Ok(accs) ==> accs.len() == accounts.len() && accs[j] == accounts[j],
    decreases i,
{
    if i > 0 {
        assert(batch.take(i).drop_last() =~= batch.take(i - 1));
        lemma_reveal_batch_leaves_unnamed(
            sale,
            sale_key,
            program_id,
            drand_round,
            accounts,
            batch,
            revealed,
            j,
            i - 1,
        );
    }
}

/// A revealed bid stays bound to its reveal: a successful reveal writes exactly the value
/// whose commitment the bid holds, and every later batch that names the bid's account
/// fails (so, by the handler's contract, the account keeps the value it was revealed with).
pub proof fn law_revealed_bid_stays_bound(
    sale: Sale,
    sale_key: Pubkey,
    program_id: Pubkey,
    drand_round: u64,
    account: BidAccount,
    revealed: RevealedBidData,
    accounts: Seq<BidAccount>,
    batch: Seq<usize>,
    later_reveals: Seq<RevealedBidData>,
    j: int,
)
    requires
        forall|k: int| 0 <= k < batch.len() ==> batch[k] < accounts.len(),
        0 <= j < accounts.len(),
        accounts[j].bid matches Ok(b) && b.bid_revealed,
        exists|k: int| 0 <= k < batch.len() && batch[k] == j,
    ensures
        reveal_one(sale, sale_key, program_id, drand_round, account, revealed) matches Ok(bid) ==> {
            &&& bid.bid_revealed
            &&& bid.max_fdv_plaintext == Some(revealed.max_fdv)
            &&& bid_commitment(revealed.max_fdv, revealed.salt@) == bid.hash_commitment@
        },
        reveal_batch(sale, sale_key, program_id, drand_round, accounts, batch, later_reveals) is Err,
{
    let first = choose|k: int| 0 <= k < batch.len() && batch[k] == j && forall|m: int| 0 <= m < k ==> batch[m] != j;
    assert(exists|k: int| 0 <= k < batch.len() && batch[k] == j && forall|m: int| 0 <= m < k ==> batch[m] != j) by {
        let w = choose|k: int| 0 <= k < batch.len() && batch[k] == j;
        lemma_first_occurrence(batch, j, w);
    }
    lemma_reveal_batch_leaves_unnamed(
        sale,
        sale_key,
        program_id,
        drand_round,
        accounts,
        batch,
        later_reveals,
        j,
        first,
    );
    assert(batch.take(first + 1).drop_last() =~= batch.take(first));
    assert(batch.take(first + 1).last() == j);
    lemma_reveal_batch_error_persists(
        sale,
        sale_key,
        program_id,
        drand_round,
        accounts,
        batch,
        later_reveals,
        first + 1,
        batch.len() as int,
    );
    assert(batch.take(batch.len() as int) =~= batch);
}

/// If `j` occurs at or before `w`, it has a first occurrence.
proof fn lemma_first_occurrence(batch: Seq<usize>, j: int, w: int)
    requires
        0 <= w < batch.len(),
        batch[w] == j,
    ensures
        exists|k: int| 0 <= k < batch.len() && batch[k] == j && forall|m: int| 0 <= m < k ==> batch[m] != j,
    decreases w,
{
    if exists|m: int| 0 <= m < w && batch[m] == j {
        let m = choose|m: int| 0 <= m < w && batch[m] == j;
        lemma_first_occurrence(batch, j, m);
    } else {
        assert(forall|m: int| 0 <= m < w ==> batch[m] != j);
    }
}

} // verus!
