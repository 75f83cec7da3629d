use vstd::prelude::*;

use crate::math::{calculate_tokens, pro_rata, pro_rata_share, tokens_for};
use crate::mpc::errors::{arithmetic_code, fail, Error, ErrorCode};
use crate::mpc::state::{Sale, SaleStatus, SealedBid};
use crate::program_error::ProgramError;
use crate::pubkey::Pubkey;

verus! {

/// The accounts of queueing a bid check: the sale, its address, and the bid.
pub struct QueueCheckBid {
    pub sale: Sale,
    pub sale_key: Pubkey,
    pub sealed_bid: SealedBid,
}

/// The accounts of receiving a bid check: the sale, its address, and the bid.
pub struct CheckBidClearedCallback {
    pub sale: Sale,
    pub sale_key: Pubkey,
    pub sealed_bid: SealedBid,
}

/// Why a bid check cannot be queued, checked in this order; `None` when it can.
pub open spec fn queue_check_bid_failure(ctx: QueueCheckBid) -> Option<Error> {
    if ctx.sale.status != SaleStatus::Settled && ctx.sale.status != SaleStatus::CheckingBids
        && ctx.sale.status != SaleStatus::Finalized {
        Some(fail(ErrorCode::InvalidSaleStatus))
    } else if ctx.sealed_bid.sale@ != ctx.sale_key@ || !ctx.sealed_bid.is_initialized {
        Some(fail(ErrorCode::InvalidParameters))
    } else if ctx.sealed_bid.bid_checked {
        Some(fail(ErrorCode::AlreadyProcessed))
    } else if ctx.sale.clearing_bucket_low is None || ctx.sale.clearing_bucket_high is None {
        Some(fail(ErrorCode::ArciumSettlementNotReceived))
    } else {
        None
    }
}

/// Checks that a settled sale's bid has not been checked yet, and gives the clearing bucket
/// bounds against which the encrypted bid is compared. Users may still check their bids
/// once claims are enabled.
pub fn handler_queue_check_bid(ctx: &QueueCheckBid) -> (r: Result<(u64, u64), Error>)
    ensures
        match r {
            Ok((low, high)) => queue_check_bid_failure(*ctx) is None && Some(low)
                == ctx.sale.clearing_bucket_low && Some(high) == ctx.sale.clearing_bucket_high,
            Err(e) => queue_check_bid_failure(*ctx) == Some(e),
        },
{
    if ctx.sale.status != SaleStatus::Settled && ctx.sale.status != SaleStatus::CheckingBids
        && ctx.sale.status != SaleStatus::Finalized {
        return Err(ProgramError::Custom(ErrorCode::InvalidSaleStatus));
    }
    if !ctx.sealed_bid.sale.same_as(&ctx.sale_key) || !ctx.sealed_bid.is_initialized {
        return Err(ProgramError::Custom(ErrorCode::InvalidParameters));
    }
    if ctx.sealed_bid.bid_checked {
        return Err(ProgramError::Custom(ErrorCode::AlreadyProcessed));
    }
    let low = match ctx.sale.clearing_bucket_low {
        Some(v) => v,
        None => return Err(ProgramError::Custom(ErrorCode::ArciumSettlementNotReceived)),
    };
    let high = match ctx.sale.clearing_bucket_high {
        Some(v) => v,
        None => return Err(ProgramError::Custom(ErrorCode::ArciumSettlementNotReceived)),
    };
    Ok((low, high))
}

/// The USDC a marginal bid uses: its amount at the marginal fill rate, truncated to 64 bits.
pub open spec fn marginal_share(amount: u64, rate: u64) -> u64 {
    (pro_rata(amount, rate) % 0x1_0000_0000_0000_0000) as u64
}

/// The bid once checked against the settlement with the computed status `result` (kept as
/// its low byte): a bid above the clearing bucket is filled in full, one within it at the
/// marginal fill rate, one below it refunded; an allocation that buys no token is refunded
/// instead, with status 0.
pub open spec fn checked_bid(sale: Sale, bid: SealedBid, result: u64) -> Result<SealedBid, ErrorCode> {
    let status = (result % 256) as u8;
    let base = SealedBid { bid_status: status, bid_checked: true, ..bid };
    if sale.clearing_fdv is None || sale.marginal_fill_rate is None {
        Err(ErrorCode::ArciumSettlementNotReceived)
    } else {
        let clearing_fdv = sale.clearing_fdv->Some_0;
        let rate = sale.marginal_fill_rate->Some_0;
        if status == 2 {
            match tokens_for(bid.amount, sale.token_supply, clearing_fdv) {
                Err(e) => Err(arithmetic_code(e)),
                Ok(t) => if t == 0 {
                    Ok(SealedBid { allocation: 0, refund: bid.amount, tokens: 0, bid_status: 0, ..base })
                } else {
                    Ok(SealedBid { allocation: bid.amount, refund: 0, tokens: t, ..base })
                },
            }
        } else if status == 1 {
            let allocation = marginal_share(bid.amount, rate);
            match tokens_for(allocation, sale.token_supply, clearing_fdv) {
                Err(e) => Err(arithmetic_code(e)),
                Ok(t) => if t == 0 {
                    Ok(SealedBid { allocation: 0, refund: bid.amount, tokens: 0, bid_status: 0, ..base })
                } else {
                    Ok(
                        SealedBid {
                            allocation: allocation,
                            refund: if bid.amount >= allocation {
                                (bid.amount - allocation) as u64
                            } else {
                                0
                            },
                            tokens: t,
                            ..base
                        },
                    )
                },
            }
        } else {
            Ok(SealedBid { allocation: 0, refund: bid.amount, tokens: 0, ..base })
        }
    }
}

/// The sale after a bid check: one more bid checked (the count stays put at its maximum),
/// and the sale in the checking phase.
pub open spec fn sale_after_check(sale: Sale) -> Sale {
    Sale {
        bids_checked: if sale.bids_checked == u32::MAX {
            sale.bids_checked
        } else {
            (sale.bids_checked + 1) as u32
        },
        status: if sale.status == SaleStatus::Settled {
            SaleStatus::CheckingBids
        } else {
            sale.status
        },
        ..sale
    }
}

/// Writes the allocation of a bid from the status that the cluster computed for it. A bid
/// that is already checked is left alone, and the sale's count of checked bids with it.
pub fn check_bid_cleared_callback(ctx: &mut CheckBidClearedCallback, result: u64) -> (r: Result<
    (),
    Error,
>)
    ensures
        final(ctx).sale_key == old(ctx).sale_key,
        match r {
            Ok(()) => old(ctx).sealed_bid.sale@ == old(ctx).sale_key@ && !old(ctx).sealed_bid.bid_checked
                && checked_bid(old(ctx).sale, old(ctx).sealed_bid, result) == Ok::<
                SealedBid,
                ErrorCode,
            >(final(ctx).sealed_bid) && final(ctx).sale == sale_after_check(old(ctx).sale),
            Err(e) => final(ctx).sale == old(ctx).sale && final(ctx).sealed_bid == old(ctx).sealed_bid
                && if old(ctx).sealed_bid.sale@ != old(ctx).sale_key@ {
                e == fail(ErrorCode::InvalidParameters)
            } else if old(ctx).sealed_bid.bid_checked {
                e == fail(ErrorCode::AlreadyProcessed)
            } else {
                checked_bid(old(ctx).sale, old(ctx).sealed_bid, result) matches Err(c) && e == fail(c)
            },
        },
{
    if !ctx.sealed_bid.sale.same_as(&ctx.sale_key) {
        return Err(ProgramError::Custom(ErrorCode::InvalidParameters));
    }
    if ctx.sealed_bid.bid_checked {
        return Err(ProgramError::Custom(ErrorCode::AlreadyProcessed));
    }
    let ghost prior = ctx.sealed_bid;
    let bid_status = (result % 256) as u8;
    let clearing_fdv = match ctx.sale.clearing_fdv {
        Some(v) => v,
        None => return Err(ProgramError::Custom(ErrorCode::ArciumSettlementNotReceived)),
    };
    let marginal_fill_rate = match ctx.sale.marginal_fill_rate {
        Some(v) => v,
        None => return Err(ProgramError::Custom(ErrorCode::ArciumSettlementNotReceived)),
    };
    let amount = ctx.sealed_bid.amount;
    if bid_status == 2 {
        let tokens = match calculate_tokens(amount, ctx.sale.token_supply, clearing_fdv) {
            Ok(t) => t,
            Err(e) => return Err(ProgramError::Custom(ErrorCode::from_arithmetic(e))),
        };
        ctx.sealed_bid.bid_status = bid_status;
        ctx.sealed_bid.bid_checked = true;
        if tokens == 0 {
            ctx.sealed_bid.allocation = 0;
            ctx.sealed_bid.refund = amount;
            ctx.sealed_bid.tokens = 0;
            ctx.sealed_bid.bid_status = 0;
        } else {
            ctx.sealed_bid.allocation = amount;
            ctx.sealed_bid.refund = 0;
            ctx.sealed_bid.tokens = tokens;
        }
    } else if bid_status == 1 {
        let share = pro_rata_share(amount, marginal_fill_rate);
        let allocation = (share % 0x1_0000_0000_0000_0000u128) as u64;
        let tokens = match calculate_tokens(allocation, ctx.sale.token_supply, clearing_fdv) {
            Ok(t) => t,
            Err(e) => return Err(ProgramError::Custom(ErrorCode::from_arithmetic(e))),
        };
        ctx.sealed_bid.bid_status = bid_status;
        ctx.sealed_bid.bid_checked = true;
        if tokens == 0 {
            ctx.sealed_bid.allocation = 0;
            ctx.sealed_bid.refund = amount;
            ctx.sealed_bid.tokens = 0;
            ctx.sealed_bid.bid_status = 0;
        } else {
            ctx.sealed_bid.allocation = allocation;
            ctx.sealed_bid.refund = amount.saturating_sub(allocation);
            ctx.sealed_bid.tokens = tokens;
        }
    } else {
        ctx.sealed_bid.bid_status = bid_status;
        ctx.sealed_bid.bid_checked = true;
        ctx.sealed_bid.allocation = 0;
        ctx.sealed_bid.refund = amount;
        ctx.sealed_bid.tokens = 0;
    }
    ctx.sale.bids_checked = match ctx.sale.bids_checked.checked_add(1) {
        Some(n) => n,
        None => ctx.sale.bids_checked,
    };
    if ctx.sale.status == SaleStatus::Settled {
        ctx.sale.status = SaleStatus::CheckingBids;
    }
    assert(checked_bid(ctx.sale, prior, result) == Ok::<SealedBid, ErrorCode>(ctx.sealed_bid))
        by {
        assert(ctx.sale.clearing_fdv == old(ctx).sale.clearing_fdv);
    }
    Ok(())
}

/// A checked bid with status 0, 1 or 2 splits its commitment exactly into allocation and
/// refund, provided the marginal fill rate is at most 100%; its tokens are what its
/// allocation buys at the one clearing FDV, and a bid below the clearing bucket is refunded
/// in full.
pub proof fn law_checked_bid_splits_commitment(sale: Sale, bid: SealedBid, result: u64)
    requires
        checked_bid(sale, bid, result) is Ok,
        result < 3,
        sale.marginal_fill_rate matches Some(rate) && rate <= 10000,
    ensures
        ({
            let checked = checked_bid(sale, bid, result)->Ok_0;
            &&& checked.allocation + checked.refund == bid.amount
            &&& checked.tokens > 0 ==> tokens_for(
                checked.allocation,
                sale.token_supply,
                sale.clearing_fdv->Some_0,
            ) == Ok::<u64, crate::math::ArithmeticError>(checked.tokens)
            &&& checked.tokens == 0 ==> checked.allocation == 0
            &&& result == 0 ==> checked.allocation == 0 && checked.refund == bid.amount
        }),
{
    let rate = sale.marginal_fill_rate->Some_0;
    assert(pro_rata(bid.amount, rate) <= bid.amount) by (nonlinear_arith)
        requires
            rate <= 10000,
            bid.amount >= 0,
            pro_rata(bid.amount, rate) == (bid.amount as int * rate as int) / 10000,
    ;
}

} // verus!
