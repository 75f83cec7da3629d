use vstd::prelude::*;

use crate::mpc::state::{MAX_BUCKET_COUNT, STATE_LEN};

verus! {

/// Position of the bid count in the auction state.
pub const BID_COUNT_SLOT: usize = 200;

/// Position of the total demand in the auction state.
pub const TOTAL_DEMAND_SLOT: usize = 201;

/// Width of one FDV bucket: `(fdv_max - fdv_min) / bucket_count`.
pub open spec fn bucket_size(fdv_min: u64, fdv_max: u64, bucket_count: u64) -> int {
    (fdv_max - fdv_min) / (bucket_count as int)
}

/// A bid's FDV held within `[fdv_min, fdv_max]`.
pub open spec fn clamped_fdv(max_fdv: u64, fdv_min: u64, fdv_max: u64) -> int {
    if max_fdv < fdv_min {
        fdv_min as int
    } else if max_fdv > fdv_max {
        fdv_max as int
    } else {
        max_fdv as int
    }
}

/// The bucket a bid falls in: its clamped FDV's offset from `fdv_min` divided by the bucket
/// width, with the top edge counted in the last bucket.
pub open spec fn bucket_of(max_fdv: u64, fdv_min: u64, fdv_max: u64, bucket_count: u64) -> int {
    let index = (clamped_fdv(max_fdv, fdv_min, fdv_max) - fdv_min) / bucket_size(
        fdv_min,
        fdv_max,
        bucket_count,
    );
    if index >= bucket_count {
        bucket_count - 1
    } else {
        index
    }
}

/// The auction state after a bid of `amount` at `max_fdv`: the amount is added to its bucket
/// (when that bucket is one of the stored ones), the bid count grows by one, and the total
/// demand by the amount.
pub open spec fn state_after_bid(
    state: Seq<u64>,
    max_fdv: u64,
    amount: u64,
    fdv_min: u64,
    fdv_max: u64,
    bucket_count: u64,
) -> Seq<u64> {
    let target = bucket_of(max_fdv, fdv_min, fdv_max, bucket_count);
    Seq::new(
        STATE_LEN as nat,
        |j: int|
            if j < MAX_BUCKET_COUNT && j == target {
                (state[j] + amount) as u64
            } else if j == BID_COUNT_SLOT {
                (state[j] + 1) as u64
            } else if j == TOTAL_DEMAND_SLOT {
                (state[j] + amount) as u64
            } else {
                state[j]
            },
    )
}

/// The arithmetic of adding a bid fits in 64 bits, and the buckets are wide enough to divide
/// by.
pub open spec fn bid_fits(
    state: Seq<u64>,
    max_fdv: u64,
    amount: u64,
    fdv_min: u64,
    fdv_max: u64,
    bucket_count: u64,
) -> bool {
    &&& fdv_min <= fdv_max
    &&& bucket_count > 0
    &&& bucket_size(fdv_min, fdv_max, bucket_count) > 0
    &&& (bucket_of(max_fdv, fdv_min, fdv_max, bucket_count) < MAX_BUCKET_COUNT ==> state[bucket_of(
        max_fdv,
        fdv_min,
        fdv_max,
        bucket_count,
    )] + amount <= u64::MAX)
    &&& state[BID_COUNT_SLOT as int] + 1 <= u64::MAX
    &&& state[TOTAL_DEMAND_SLOT as int] + amount <= u64::MAX
}

/// A fresh auction state: every bucket, the bid count and the total demand at zero.
pub fn init_auction_state() -> (state: [u64; STATE_LEN])
    ensures
        state@ == Seq::new(STATE_LEN as nat, |_j: int| 0u64),
{
    let state = [0u64; STATE_LEN];
    assert(state@ =~= Seq::new(STATE_LEN as nat, |_j: int| 0u64));
    state
}

/// Adds a bid of `amount` USDC at `max_fdv` to the auction state.
pub fn submit_bid(
    max_fdv: u64,
    state: [u64; STATE_LEN],
    amount: u64,
    fdv_min: u64,
    fdv_max: u64,
    bucket_count: u64,
) -> (next: [u64; STATE_LEN])
    requires
        bid_fits(state@, max_fdv, amount, fdv_min, fdv_max, bucket_count),
    ensures
        next@ == state_after_bid(state@, max_fdv, amount, fdv_min, fdv_max, bucket_count),
{
    let mut buckets = state;
    let range = fdv_max - fdv_min;
    let bucket_size = range / bucket_count;
    let clamped = if max_fdv < fdv_min {
        fdv_min
    } else if max_fdv > fdv_max {
        fdv_max
    } else {
        max_fdv
    };
    let offset = clamped - fdv_min;
    let mut bucket_idx = offset / bucket_size;
    if bucket_idx >= bucket_count {
        bucket_idx = bucket_count - 1;
    }
    assert(bucket_idx == bucket_of(max_fdv, fdv_min, fdv_max, bucket_count));
    if bucket_idx < MAX_BUCKET_COUNT as u64 {
        let j = bucket_idx as usize;
        buckets[j] = buckets[j] + amount;
    }
    buckets[BID_COUNT_SLOT] = buckets[BID_COUNT_SLOT] + 1;
    buckets[TOTAL_DEMAND_SLOT] = buckets[TOTAL_DEMAND_SLOT] + amount;
    assert(buckets@ =~= state_after_bid(state@, max_fdv, amount, fdv_min, fdv_max, bucket_count));
    buckets
}

/// The auction state after the bids `(max_fdv, amount)`, each added once in turn, from a
/// fresh state.
pub open spec fn state_after_bids(bids: Seq<(u64, u64)>, fdv_min: u64, fdv_max: u64, bucket_count: u64) -> Seq<u64>
    decreases bids.len(),
{
    if bids.len() == 0 {
        Seq::new(STATE_LEN as nat, |_j: int| 0u64)
    } else {
        state_after_bid(
            state_after_bids(bids.drop_last(), fdv_min, fdv_max, bucket_count),
            bids.last().0,
            bids.last().1,
            fdv_min,
            fdv_max,
            bucket_count,
        )
    }
}

/// The amounts of the bids, summed.
pub open spec fn total_amount(bids: Seq<(u64, u64)>) -> int
    decreases bids.len(),
{
    if bids.len() == 0 {
        0
    } else {
        total_amount(bids.drop_last()) + bids.last().1
    }
}

/// The amounts of the bids that fall in bucket `b`, summed.
pub open spec fn bucket_amount(bids: Seq<(u64, u64)>, b: int, fdv_min: u64, fdv_max: u64, bucket_count: u64) -> int
    decreases bids.len(),
{
    if bids.len() == 0 {
        0
    } else {
        bucket_amount(bids.drop_last(), b, fdv_min, fdv_max, bucket_count) + if bucket_of(
            bids.last().0,
            fdv_min,
            fdv_max,
            bucket_count,
        ) == b {
            bids.last().1 as int
        } else {
            0
        }
    }
}

proof fn lemma_bucket_within_total(bids: Seq<(u64, u64)>, b: int, fdv_min: u64, fdv_max: u64, bucket_count: u64)
    ensures
        0 <= bucket_amount(bids, b, fdv_min, fdv_max, bucket_count) <= total_amount(bids),
    decreases bids.len(),
{
    if bids.len() > 0 {
        lemma_bucket_within_total(bids.drop_last(), b, fdv_min, fdv_max, bucket_count);
    }
}

/// Adding each bid once to a fresh auction state counts it once: the bid count is the
/// number of bids, the total demand their summed amounts, and each stored bucket the summed
/// amounts of the bids that fall in it (as long as the count and the sum fit in 64 bits).
pub proof fn law_state_counts_each_bid_once(bids: Seq<(u64, u64)>, fdv_min: u64, fdv_max: u64, bucket_count: u64)
    requires
        total_amount(bids) <= u64::MAX,
        bids.len() <= u64::MAX,
    ensures
        ({
            let s = state_after_bids(bids, fdv_min, fdv_max, bucket_count);
            &&& s.len() == STATE_LEN
            &&& s[BID_COUNT_SLOT as int] == bids.len()
            &&& s[TOTAL_DEMAND_SLOT as int] == total_amount(bids)
            &&& forall|b: int| 0 <= b < MAX_BUCKET_COUNT ==> #[trigger] s[b] == bucket_amount(
                bids,
                b,
                fdv_min,
                fdv_max,
                bucket_count,
            )
        }),
    decreases bids.len(),
{
    if bids.len() > 0 {
        let prev = bids.drop_last();
        assert(total_amount(prev) <= total_amount(bids));
        law_state_counts_each_bid_once(prev, fdv_min, fdv_max, bucket_count);
        lemma_bucket_within_total(prev, 0, fdv_min, fdv_max, bucket_count);
        let s = state_after_bids(bids, fdv_min, fdv_max, bucket_count);
        assert forall|b: int| 0 <= b < MAX_BUCKET_COUNT implies #[trigger] s[b] == bucket_amount(
            bids,
            b,
            fdv_min,
            fdv_max,
            bucket_count,
        ) by {
            lemma_bucket_within_total(bids, b, fdv_min, fdv_max, bucket_count);
        }
    }
}

/// The plaintext inputs of a settlement.
#[derive(Clone, Copy, Debug)]
pub struct SettleInputs {
    pub fdv_min: u64,
    pub fdv_max: u64,
    pub token_supply: u64,
    pub supply_pct_bps: u64,
    pub bucket_count: u64,
}

/// Tokens on sale: `token_supply * supply_pct_bps / 10000`.
pub open spec fn tokens_on_sale(p: SettleInputs) -> int {
    (p.token_supply as int * p.supply_pct_bps as int) / 10000
}

/// Demand in bucket `b`; buckets past the stored ones hold none.
pub open spec fn bucket_demand(state: Seq<u64>, b: int) -> int {
    if 0 <= b < MAX_BUCKET_COUNT {
        state[b] as int
    } else {
        0
    }
}

/// Demand in buckets `b` up to `top - 1`.
pub open spec fn demand_from(state: Seq<u64>, b: int, top: int) -> int
    decreases top - b,
{
    if b >= top {
        0
    } else {
        bucket_demand(state, b) + demand_from(state, b + 1, top)
    }
}

/// The FDV at the middle of bucket `b`.
pub open spec fn bucket_midpoint(p: SettleInputs, b: int) -> int {
    let size = bucket_size(p.fdv_min, p.fdv_max, p.bucket_count);
    p.fdv_min + b * size + size / 2
}

/// USDC the sale raises when its tokens sell at `fdv`: `tokens_on_sale * fdv / token_supply`.
pub open spec fn raise_target(p: SettleInputs, fdv: int) -> int {
    tokens_on_sale(p) * fdv / (p.token_supply as int)
}

/// The lowest bucket the settlement looks at: it scans at most `MAX_BUCKET_COUNT` buckets,
/// from the top one down.
pub open spec fn lowest_scanned(p: SettleInputs) -> int {
    if p.bucket_count > MAX_BUCKET_COUNT {
        p.bucket_count - MAX_BUCKET_COUNT
    } else {
        0
    }
}

/// Whether the demand at or above bucket `b` covers the raise at `b`'s midpoint price.
pub open spec fn meets_target(state: Seq<u64>, p: SettleInputs, b: int) -> bool {
    demand_from(state, b, p.bucket_count as int) >= raise_target(p, bucket_midpoint(p, b))
}

/// The highest scanned bucket at or below `b` whose demand from there up covers its raise.
pub open spec fn highest_meeting(state: Seq<u64>, p: SettleInputs, b: int) -> Option<int>
    decreases b - lowest_scanned(p) + 1,
{
    if b < lowest_scanned(p) {
        None
    } else if meets_target(state, p, b) {
        Some(b)
    } else {
        highest_meeting(state, p, b - 1)
    }
}

/// The clearing bucket: the highest bucket whose cumulative demand from the top covers the
/// raise at its midpoint; the top bucket when none does.
pub open spec fn clearing_bucket(state: Seq<u64>, p: SettleInputs) -> int {
    match highest_meeting(state, p, p.bucket_count - 1) {
        Some(b) => b,
        None => p.bucket_count - 1,
    }
}

/// Capacity left for the clearing bucket once the buckets above it are filled.
pub open spec fn remaining_capacity(state: Seq<u64>, p: SettleInputs) -> int {
    let cb = clearing_bucket(state, p);
    let target = raise_target(p, bucket_midpoint(p, cb));
    let above = demand_from(state, cb + 1, p.bucket_count as int);
    if target > above {
        target - above
    } else {
        0
    }
}

/// Fill rate of the clearing bucket, in basis points.
pub open spec fn marginal_fill_rate(state: Seq<u64>, p: SettleInputs) -> int {
    let marginal = bucket_demand(state, clearing_bucket(state, p));
    let remaining = remaining_capacity(state, p);
    if marginal == 0 {
        10000
    } else if remaining >= marginal {
        10000
    } else {
        remaining * 10000 / marginal
    }
}

/// The settlement: clearing FDV (the clearing bucket's midpoint), marginal fill rate, the
/// clearing bucket's bounds, the USDC raised, and the bid count.
pub open spec fn settlement(state: Seq<u64>, p: SettleInputs) -> (u64, u64, u64, u64, u64, u64) {
    let cb = clearing_bucket(state, p);
    let size = bucket_size(p.fdv_min, p.fdv_max, p.bucket_count);
    let above = demand_from(state, cb + 1, p.bucket_count as int);
    let marginal = bucket_demand(state, cb);
    let fill = marginal_fill_rate(state, p);
    let total = above + if fill >= 10000 {
        marginal
    } else {
        remaining_capacity(state, p)
    };
    let low = p.fdv_min + cb * size;
    (
        bucket_midpoint(p, cb) as u64,
        fill as u64,
        low as u64,
        (low + size) as u64,
        total as u64,
        state[BID_COUNT_SLOT as int],
    )
}

/// The arithmetic of a settlement fits in 64 bits and divides by nonzero values.
pub open spec fn settle_fits(state: Seq<u64>, p: SettleInputs) -> bool {
    &&& p.fdv_min <= p.fdv_max
    &&& p.bucket_count > 0
    &&& p.token_supply > 0
    &&& p.token_supply as int * p.supply_pct_bps as int <= u64::MAX
    &&& demand_from(state, lowest_scanned(p), p.bucket_count as int) <= u64::MAX
    &&& tokens_on_sale(p) * bucket_midpoint(p, p.bucket_count - 1) <= u64::MAX
    &&& remaining_capacity(state, p) < bucket_demand(state, clearing_bucket(state, p)) ==> remaining_capacity(
        state,
        p,
    ) * 10000 <= u64::MAX
}

proof fn lemma_demand_nonnegative(state: Seq<u64>, b: int, top: int)
    ensures
        demand_from(state, b, top) >= 0,
    decreases top - b,
{
    if b < top {
        lemma_demand_nonnegative(state, b + 1, top);
    }
}

proof fn lemma_demand_monotone(state: Seq<u64>, lo: int, b: int, top: int)
    requires
        lo <= b,
    ensures
        demand_from(state, b, top) <= demand_from(state, lo, top),
    decreases b - lo,
{
    if lo < b {
        lemma_demand_monotone(state, lo + 1, b, top);
        if lo < top {
            assert(bucket_demand(state, lo) >= 0);
        } else {
            lemma_demand_nonnegative(state, b, top);
        }
    }
}

/// Midpoints and bounds of scanned buckets stay within `[fdv_min, fdv_max]`, and grow with
/// the bucket.
proof fn lemma_bucket_bounds(p: SettleInputs, b: int)
    requires
        p.fdv_min <= p.fdv_max,
        p.bucket_count > 0,
        0 <= b < p.bucket_count,
    ensures
        bucket_size(p.fdv_min, p.fdv_max, p.bucket_count) >= 0,
        0 <= b * bucket_size(p.fdv_min, p.fdv_max, p.bucket_count),
        b * bucket_size(p.fdv_min, p.fdv_max, p.bucket_count) + bucket_size(
            p.fdv_min,
            p.fdv_max,
            p.bucket_count,
        ) <= p.fdv_max - p.fdv_min,
        bucket_midpoint(p, b) <= bucket_midpoint(p, p.bucket_count - 1),
{
    let size = bucket_size(p.fdv_min, p.fdv_max, p.bucket_count);
    let range = p.fdv_max - p.fdv_min;
    let bc = p.bucket_count as int;
    assert(size >= 0 && size * bc <= range) by (nonlinear_arith)
        requires
            size == range / bc,
            range >= 0,
            bc > 0,
    ;
    assert(0 <= b * size && b * size + size <= bc * size && b * size <= (bc - 1) * size)
        by (nonlinear_arith)
        requires
            0 <= b < bc,
            size >= 0,
    ;
}

/// Runs the settlement over the auction state: finds the clearing bucket by walking the
/// demand down from the top bucket, then the fill rate of that bucket and the USDC raised.
pub fn settle_auction(
    state: [u64; STATE_LEN],
    fdv_min: u64,
    fdv_max: u64,
    token_supply: u64,
    supply_pct_bps: u64,
    bucket_count: u64,
) -> (r: (u64, u64, u64, u64, u64, u64))
    requires
        settle_fits(
            state@,
            SettleInputs { fdv_min, fdv_max, token_supply, supply_pct_bps, bucket_count },
        ),
    ensures
        r == settlement(
            state@,
            SettleInputs { fdv_min, fdv_max, token_supply, supply_pct_bps, bucket_count },
        ),
{
    let ghost p = SettleInputs { fdv_min, fdv_max, token_supply, supply_pct_bps, bucket_count };
    let bid_count = state[BID_COUNT_SLOT];
    let range = fdv_max - fdv_min;
    let width = range / bucket_count;
    assert(token_supply as int * supply_pct_bps as int <= u64::MAX);
    let tokens_for_sale = (token_supply * supply_pct_bps) / 10000;
    let scanned: u64 = if bucket_count < MAX_BUCKET_COUNT as u64 {
        bucket_count
    } else {
        MAX_BUCKET_COUNT as u64
    };
    assert(bucket_count - scanned == lowest_scanned(p));
    let mut accumulated_demand: u64 = 0;
    let mut clearing: u64 = bucket_count - 1;
    let mut found = false;
    let mut demand_above: u64 = 0;
    let mut demand_marginal: u64 = if bucket_count - 1 < MAX_BUCKET_COUNT as u64 {
        state[(bucket_count - 1) as usize]
    } else {
        0
    };
    let mut i: u64 = 0;
    while i < scanned
        invariant
            p == (SettleInputs { fdv_min, fdv_max, token_supply, supply_pct_bps, bucket_count }),
            settle_fits(state@, p),
            state@.len() == STATE_LEN,
            width == bucket_size(fdv_min, fdv_max, bucket_count),
            tokens_for_sale == tokens_on_sale(p),
            scanned <= bucket_count,
            scanned <= MAX_BUCKET_COUNT,
            bucket_count - scanned == lowest_scanned(p),
            0 <= i <= scanned,
            bucket_count - scanned <= clearing < bucket_count,
            accumulated_demand == demand_from(state@, bucket_count - i, bucket_count as int),
            found ==> highest_meeting(state@, p, bucket_count - 1) == Some(clearing as int),
            found ==> demand_above == demand_from(state@, clearing + 1, bucket_count as int),
            found ==> demand_marginal == bucket_demand(state@, clearing as int),
            !found ==> highest_meeting(state@, p, bucket_count - 1) == highest_meeting(
                state@,
                p,
                bucket_count - 1 - i,
            ),
            !found ==> clearing == bucket_count - 1 && demand_above == 0 && demand_marginal
                == bucket_demand(state@, bucket_count - 1),
        decreases scanned - i,
    {
        let b = bucket_count - 1 - i;
        let bucket_demand: u64 = if b < MAX_BUCKET_COUNT as u64 {
            state[b as usize]
        } else {
            0
        };
        proof {
            lemma_demand_monotone(state@, lowest_scanned(p), b as int, bucket_count as int);
            lemma_demand_nonnegative(state@, b + 1, bucket_count as int);
            lemma_bucket_bounds(p, b as int);
        }
        let before = accumulated_demand;
        accumulated_demand = accumulated_demand + bucket_demand;
        let bucket_fdv = fdv_min + (b * width) + (width / 2);
        assert(tokens_for_sale * bucket_fdv <= tokens_on_sale(p) * bucket_midpoint(p, bucket_count - 1))
            by (nonlinear_arith)
            requires
                tokens_for_sale >= 0,
                bucket_fdv <= bucket_midpoint(p, bucket_count - 1),
                tokens_for_sale == tokens_on_sale(p),
        ;
        let target = (tokens_for_sale * bucket_fdv) / token_supply;
        assert(target == raise_target(p, bucket_midpoint(p, b as int)));
        if !found && accumulated_demand >= target {
            clearing = b;
            found = true;
            demand_above = before;
            demand_marginal = bucket_demand;
        }
        i = i + 1;
    }
    proof {
        if !found {
            assert(highest_meeting(state@, p, bucket_count - 1 - i) == None::<int>);
        }
    }
    assert(clearing == clearing_bucket(state@, p));
    proof {
        lemma_bucket_bounds(p, clearing as int);
        lemma_demand_monotone(state@, lowest_scanned(p), clearing as int, bucket_count as int);
        lemma_demand_nonnegative(state@, clearing + 1, bucket_count as int);
    }
    let clearing_fdv = fdv_min + (clearing * width) + (width / 2);
    assert(tokens_for_sale * clearing_fdv <= tokens_on_sale(p) * bucket_midpoint(p, bucket_count - 1))
        by (nonlinear_arith)
        requires
            tokens_for_sale >= 0,
            clearing_fdv <= bucket_midpoint(p, bucket_count - 1),
            tokens_for_sale == tokens_on_sale(p),
    ;
    let target = (tokens_for_sale * clearing_fdv) / token_supply;
    let remaining_capacity = if target > demand_above {
        target - demand_above
    } else {
        0u64
    };
    let marginal_fill_rate_bps = if demand_marginal == 0 {
        10000u64
    } else if remaining_capacity >= demand_marginal {
        10000u64
    } else {
        (remaining_capacity * 10000) / demand_marginal
    };
    assert(marginal_fill_rate_bps as int == marginal_fill_rate(state@, p));
    proof {
        if remaining_capacity < demand_marginal && demand_marginal > 0 {
            assert((remaining_capacity as int) * 10000 / (demand_marginal as int) < 10000) by (nonlinear_arith)
                requires
                    remaining_capacity < demand_marginal,
                    demand_marginal > 0,
            ;
        }
    }
    let total_raised = demand_above + if marginal_fill_rate_bps >= 10000 {
        demand_marginal
    } else {
        remaining_capacity
    };
    let clearing_bucket_low = fdv_min + (clearing * width);
    let clearing_bucket_high = clearing_bucket_low + width;
    (
        clearing_fdv,
        marginal_fill_rate_bps,
        clearing_bucket_low,
        clearing_bucket_high,
        total_raised,
        bid_count,
    )
}

/// A settlement's fill rate is at most 100%; its clearing FDV lies within the clearing
/// bucket, which lies within the sale's FDV range; and it raises at least the demand above
/// the clearing bucket and at most the demand from the clearing bucket up.
pub proof fn law_settlement_within_bounds(state: Seq<u64>, p: SettleInputs)
    requires
        settle_fits(state, p),
        state.len() == STATE_LEN,
    ensures
        ({
            let (clearing_fdv, fill, low, high, total, _) = settlement(state, p);
            let cb = clearing_bucket(state, p);
            &&& fill <= 10000
            &&& p.fdv_min <= low <= clearing_fdv <= high <= p.fdv_max
            &&& demand_from(state, cb + 1, p.bucket_count as int) <= total
            &&& total <= demand_from(state, cb, p.bucket_count as int)
        }),
{
    let cb = clearing_bucket(state, p);
    assert(p.bucket_count - 1 >= lowest_scanned(p));
    lemma_clearing_bucket_scanned(state, p, p.bucket_count - 1);
    lemma_bucket_bounds(p, cb);
    lemma_demand_nonnegative(state, cb + 1, p.bucket_count as int);
    lemma_demand_monotone(state, lowest_scanned(p), cb, p.bucket_count as int);
    let marginal = bucket_demand(state, cb);
    let remaining = remaining_capacity(state, p);
    if marginal > 0 && remaining < marginal {
        assert(remaining * 10000 / marginal < 10000) by (nonlinear_arith)
            requires
                0 <= remaining < marginal,
        ;
    }
}

/// A found clearing bucket lies in the scanned range.
proof fn lemma_clearing_bucket_scanned(state: Seq<u64>, p: SettleInputs, b: int)
    requires
        b >= lowest_scanned(p) - 1,
    ensures
        highest_meeting(state, p, b) matches Some(c) ==> lowest_scanned(p) <= c <= b,
    decreases b - lowest_scanned(p) + 1,
{
    if b >= lowest_scanned(p) && !meets_target(state, p, b) {
        lemma_clearing_bucket_scanned(state, p, b - 1);
    }
}

/// Where a bid stands against the clearing bucket: 2 at or above its upper bound, 1 within
/// it, 0 below it.
pub open spec fn bid_status(max_fdv: u64, clearing_bucket_low: u64, clearing_bucket_high: u64) -> u64 {
    if max_fdv >= clearing_bucket_high {
        2
    } else if max_fdv >= clearing_bucket_low {
        1
    } else {
        0
    }
}

/// Where a bid stands against the clearing bucket.
pub fn check_bid_cleared(max_fdv: u64, clearing_bucket_low: u64, clearing_bucket_high: u64) -> (status:
    u64)
    ensures
        status == bid_status(max_fdv, clearing_bucket_low, clearing_bucket_high),
{
    if max_fdv >= clearing_bucket_high {
        2
    } else if max_fdv >= clearing_bucket_low {
        1
    } else {
        0
    }
}

/// A higher bid never stands lower against the same clearing bucket.
pub proof fn law_bid_status_monotone(a: u64, b: u64, low: u64, high: u64)
    requires
        a <= b,
    ensures
        bid_status(a, low, high) <= bid_status(b, low, high),
{
}

/// The USDC a settlement raises is priced on the share of the supply that is for sale: when
/// the clearing bucket is only partly filled, the sale raises exactly what
/// `token_supply * supply_pct_bps / 10000` tokens cost at the clearing FDV, and when that
/// bucket is filled in full it raises no more than that.
pub proof fn law_raise_is_priced_on_the_share_for_sale(state: Seq<u64>, p: SettleInputs)
    requires
        settle_fits(state, p),
        state.len() == STATE_LEN,
    ensures
        ({
            let (clearing_fdv, fill, _low, _high, total, _count) = settlement(state, p);
            let for_sale = p.token_supply as int * p.supply_pct_bps as int / 10000;
            let cost = for_sale * clearing_fdv as int / p.token_supply as int;
            &&& 0 < fill < 10000 ==> total == cost
            &&& fill == 10000 && bucket_demand(state, clearing_bucket(state, p)) > 0 ==> total <= cost
        }),
{
    let cb = clearing_bucket(state, p);
    assert(p.bucket_count - 1 >= lowest_scanned(p));
    lemma_clearing_bucket_scanned(state, p, p.bucket_count - 1);
    lemma_bucket_bounds(p, cb);
    lemma_demand_nonnegative(state, cb + 1, p.bucket_count as int);
    lemma_demand_monotone(state, lowest_scanned(p), cb, p.bucket_count as int);
    let marginal = bucket_demand(state, cb);
    let remaining = remaining_capacity(state, p);
    let mid = bucket_midpoint(p, cb);
    let target = raise_target(p, mid);
    assert(tokens_on_sale(p) >= 0) by (nonlinear_arith)
        requires
            p.token_supply >= 0,
            p.supply_pct_bps >= 0,
            tokens_on_sale(p) == p.token_supply as int * p.supply_pct_bps as int / 10000,
    ;
    assert(0 <= target <= tokens_on_sale(p) * mid) by (nonlinear_arith)
        requires
            tokens_on_sale(p) >= 0,
            mid >= 0,
            p.token_supply > 0,
            target == tokens_on_sale(p) * mid / (p.token_supply as int),
    ;
    assert(tokens_on_sale(p) * mid <= tokens_on_sale(p) * bucket_midpoint(p, p.bucket_count - 1)) by (nonlinear_arith)
        requires
            tokens_on_sale(p) >= 0,
            mid <= bucket_midpoint(p, p.bucket_count - 1),
    ;
    if marginal > 0 && remaining < marginal {
        assert(remaining * 10000 / marginal < 10000) by (nonlinear_arith)
            requires
                0 <= remaining < marginal,
        ;
        if remaining == 0 {
            assert(remaining * 10000 / marginal == 0) by (nonlinear_arith)
                requires
                    remaining == 0,
                    marginal > 0,
            ;
        }
    }
}

/// A bid lands in the bucket of its price: placement never decreases as the bid rises, a
/// bid at or below `fdv_min` lands in the first bucket and one at or above `fdv_max` in the
/// last, and a bid within the range lands in the bucket whose band
/// `[fdv_min + b * width, fdv_min + (b + 1) * width)` holds it (the last bucket also takes
/// the top edge and any remainder).
pub proof fn law_bid_lands_in_its_price_bucket(
    m1: u64,
    m2: u64,
    fdv_min: u64,
    fdv_max: u64,
    bucket_count: u64,
)
    requires
        fdv_min <= fdv_max,
        bucket_count > 0,
        (fdv_max - fdv_min) / (bucket_count as int) > 0,
    ensures
        ({
            let width = (fdv_max - fdv_min) / (bucket_count as int);
            let b = bucket_of(m1, fdv_min, fdv_max, bucket_count);
            &&& 0 <= b < bucket_count
            &&& m1 <= m2 ==> b <= bucket_of(m2, fdv_min, fdv_max, bucket_count)
            &&& m1 <= fdv_min ==> b == 0
            &&& m1 >= fdv_max ==> b == bucket_count - 1
            &&& fdv_min <= m1 <= fdv_max ==> fdv_min + b * width <= m1
            &&& fdv_min <= m1 <= fdv_max && b < bucket_count - 1 ==> m1 < fdv_min + (b + 1) * width
        }),
{
    let width = (fdv_max - fdv_min) / (bucket_count as int);
    let range = fdv_max - fdv_min;
    let bc = bucket_count as int;
    assert(width * bc <= range) by (nonlinear_arith)
        requires
            width == range / bc,
            range >= 0,
            bc > 0,
    ;
    assert(range / width >= bc) by (nonlinear_arith)
        requires
            width * bc <= range,
            width > 0,
            bc > 0,
    ;
    let c1 = clamped_fdv(m1, fdv_min, fdv_max);
    let c2 = clamped_fdv(m2, fdv_min, fdv_max);
    assert(bucket_size(fdv_min, fdv_max, bucket_count) == width);
    if m1 <= m2 {
        assert(c1 <= c2);
        assert((c1 - fdv_min) / width <= (c2 - fdv_min) / width) by (nonlinear_arith)
            requires
                0 <= c1 - fdv_min <= c2 - fdv_min,
                width > 0,
        ;
    }
    assert((c1 - fdv_min) / width >= 0) by (nonlinear_arith)
        requires
            c1 - fdv_min >= 0,
            width > 0,
    ;
    if m1 <= fdv_min {
        assert(c1 == fdv_min);
        assert(0int / width == 0) by (nonlinear_arith)
            requires
                width > 0,
        ;
    }
    if m1 >= fdv_max {
        assert(c1 == fdv_max);
    }
    if fdv_min <= m1 <= fdv_max {
        let q = (m1 - fdv_min) / width;
        assert(q * width <= m1 - fdv_min < (q + 1) * width) by (nonlinear_arith)
            requires
                q == (m1 - fdv_min) / width,
                width > 0,
                m1 - fdv_min >= 0,
        ;
        let b = bucket_of(m1, fdv_min, fdv_max, bucket_count);
        if q >= bc {
            assert(b == bc - 1);
            assert(b * width <= q * width) by (nonlinear_arith)
                requires
                    b <= q,
                    width > 0,
            ;
        }
    }
}

/// A bid at or above `fdv_max` adds its amount to the last bucket, where the top of the
/// FDV range is priced.
pub proof fn law_high_bid_fills_top_bucket(
    state: Seq<u64>,
    max_fdv: u64,
    amount: u64,
    fdv_min: u64,
    fdv_max: u64,
    bucket_count: u64,
)
    requires
        bid_fits(state, max_fdv, amount, fdv_min, fdv_max, bucket_count),
        max_fdv >= fdv_max,
        bucket_count <= MAX_BUCKET_COUNT,
    ensures
        state_after_bid(state, max_fdv, amount, fdv_min, fdv_max, bucket_count)[bucket_count - 1]
            == state[bucket_count - 1] + amount,
{
    law_bid_lands_in_its_price_bucket(max_fdv, max_fdv, fdv_min, fdv_max, bucket_count);
}

/// The search from `b` down: the bucket it finds meets its raise target and every scanned
/// bucket above it does not; when it finds none, no scanned bucket up to `b` does.
proof fn lemma_highest_meeting_is_highest(state: Seq<u64>, p: SettleInputs, b: int)
    requires
        b >= lowest_scanned(p) - 1,
    ensures
        match highest_meeting(state, p, b) {
            Some(c) => meets_target(state, p, c) && forall|k: int| c < k <= b ==> !#[trigger] meets_target(state, p, k),
            None => forall|k: int| lowest_scanned(p) <= k <= b ==> !#[trigger] meets_target(state, p, k),
        },
    decreases b - lowest_scanned(p) + 1,
{
    if b >= lowest_scanned(p) && !meets_target(state, p, b) {
        lemma_highest_meeting_is_highest(state, p, b - 1);
    }
}

/// The clearing bucket is the highest bucket (of those scanned) whose demand, counted from
/// it up to the top, covers what the tokens for sale cost at its midpoint FDV, the cost being
/// `token_supply * supply_pct_bps / 10000` tokens at `fdv_min + b * width + width / 2`;
/// when no bucket's demand covers its cost, the top bucket clears.
pub proof fn law_clearing_bucket_is_highest_covered(state: Seq<u64>, p: SettleInputs)
    requires
        p.bucket_count > 0,
        p.token_supply > 0,
    ensures
        ({
            let width = (p.fdv_max - p.fdv_min) / (p.bucket_count as int);
            let for_sale = p.token_supply as int * p.supply_pct_bps as int / 10000;
            let cost = |b: int| for_sale * (p.fdv_min + b * width + width / 2) / p.token_supply as int;
            let cb = clearing_bucket(state, p);
            &&& forall|b: int| cb < b < p.bucket_count && lowest_scanned(p) <= b ==> #[trigger] demand_from(state, b, p.bucket_count as int) < cost(b)
            &&& (exists|b: int| lowest_scanned(p) <= b < p.bucket_count && #[trigger] demand_from(state, b, p.bucket_count as int) >= cost(b))
                ==> demand_from(state, cb, p.bucket_count as int) >= cost(cb)
            &&& (forall|b: int| lowest_scanned(p) <= b < p.bucket_count ==> #[trigger] demand_from(state, b, p.bucket_count as int) < cost(b))
                ==> cb == p.bucket_count - 1
        }),
{
    lemma_highest_meeting_is_highest(state, p, p.bucket_count - 1);
    let width = (p.fdv_max - p.fdv_min) / (p.bucket_count as int);
    let for_sale = p.token_supply as int * p.supply_pct_bps as int / 10000;
    let cost = |b: int| for_sale * (p.fdv_min + b * width + width / 2) / p.token_supply as int;
    assert forall|b: int| #![trigger meets_target(state, p, b)] meets_target(state, p, b) <==> demand_from(state, b, p.bucket_count as int) >= cost(b) by {
    }
    let cb = clearing_bucket(state, p);
    if exists|b: int| lowest_scanned(p) <= b < p.bucket_count && #[trigger] demand_from(state, b, p.bucket_count as int) >= cost(b) {
        let w = choose|b: int| lowest_scanned(p) <= b < p.bucket_count && #[trigger] demand_from(state, b, p.bucket_count as int) >= cost(b);
        assert(meets_target(state, p, w));
    }
    if forall|b: int| lowest_scanned(p) <= b < p.bucket_count ==> #[trigger] demand_from(state, b, p.bucket_count as int) < cost(b) {
        if highest_meeting(state, p, p.bucket_count - 1) is Some {
            let c = highest_meeting(state, p, p.bucket_count - 1)->Some_0;
            lemma_clearing_bucket_scanned(state, p, p.bucket_count - 1);
            assert(meets_target(state, p, c));
            assert(demand_from(state, c, p.bucket_count as int) < cost(c));
        }
    }
    assert forall|b: int| cb < b < p.bucket_count && lowest_scanned(p) <= b implies #[trigger] demand_from(state, b, p.bucket_count as int) < cost(b) by {
        assert(!meets_target(state, p, b));
    }
}

} // verus!
