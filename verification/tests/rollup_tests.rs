use fundraising_program::program_error::ProgramError;
use fundraising_program::pubkey::Pubkey;
use fundraising_program::rollup::errors::ErrorCode;
use fundraising_program::rollup::events::{
    BatchAllocated, BatchUndelegated, BidSubmitted, BidUpdated, ClaimCompleted,
    RefundModeEnabled, SettlementComputed, UnsoldWithdrawn,
};
use fundraising_program::rollup::instructions::allocate_batch::{
    handler_allocate_batch, AllocateBatch,
};
use fundraising_program::rollup::instructions::claim_allocation::{
    handler_claim_allocation, ClaimAllocation,
};
use fundraising_program::rollup::instructions::close_and_compute::{
    handler_close_and_compute, CloseAndCompute,
};
use fundraising_program::rollup::instructions::refund_sale::{handler_refund_sale, RefundSale};
use fundraising_program::rollup::instructions::submit_bid::{handler_submit_bid, SubmitBid};
use fundraising_program::rollup::instructions::undelegate_batch::{
    handler_undelegate_batch, UndelegateBatch,
};
use fundraising_program::rollup::instructions::update_bid::{handler_update_bid_mb, UpdateBidMb};
use fundraising_program::rollup::instructions::withdraw_unsold::{
    handler_withdraw_unsold, WithdrawUnsold,
};
use fundraising_program::rollup::state::{Sale, SaleStatus, SealedBid};

type Error = ProgramError<ErrorCode>;

fn key(n: u8) -> Pubkey {
    Pubkey([n; 32])
}

fn custom(code: ErrorCode) -> Error {
    ProgramError::Custom(code)
}

const SALE_KEY: u8 = 9;

fn sale() -> Sale {
    Sale {
        authority: key(1),
        token_mint: key(2),
        usdc_mint: key(3),
        usdc_vault: key(4),
        token_vault: key(5),
        usdc_treasury: key(6),
        token_treasury: key(7),
        token_supply: 1_000_000,
        supply_percentage: 5_000,
        raise_min: 1_000,
        raise_max: 100_000,
        fdv_min: 1_000,
        fdv_max: 100_000,
        min_commitment: 10,
        commitment_start: 100,
        commitment_end: 200,
        score_merkle_root: [0u8; 32],
        clearing_fdv: None,
        total_cleared_commits: None,
        fill_rate: None,
        marginal_user: None,
        marginal_allocation: None,
        marginal_user_verified: false,
        verification_count: 0,
        total_users: 3,
        total_committed: 6_000,
        running_sum: 0,
        status: SaleStatus::Active,
        is_paused: false,
        claims_enabled: false,
        per_validator: key(8),
        settlement_computed: false,
        bids_zeroed: false,
        name: String::from("rollup"),
        created_at: 0,
        bump: 255,
    }
}

fn bid(user: u8, amount: u64) -> SealedBid {
    SealedBid {
        is_initialized: true,
        sale: key(SALE_KEY),
        user: key(user),
        amount,
        max_fdv_plaintext: None,
        bid_submitted: false,
        cleared: false,
        is_marginal: false,
        allocation: 0,
        refund: 0,
        tokens: 0,
        claimed: false,
        commit_time: 150,
        bump: 254,
    }
}

fn submitted(user: u8, amount: u64, max_fdv: u64) -> SealedBid {
    let mut b = bid(user, amount);
    b.bid_submitted = true;
    b.max_fdv_plaintext = Some(max_fdv);
    b
}

fn computing_sale(fill_rate: u64) -> Sale {
    let mut s = sale();
    s.status = SaleStatus::Computing;
    s.settlement_computed = true;
    s.clearing_fdv = Some(10_000);
    s.fill_rate = Some(fill_rate);
    s
}

#[test]
fn submit_then_update_bid() {
    let mut ctx = SubmitBid { sale: sale(), sale_key: key(SALE_KEY), sealed_bid: bid(20, 1_000), user: key(20) };
    assert_eq!(handler_submit_bid(&mut ctx, 150, 50_000), Ok(BidSubmitted { sale: key(SALE_KEY), user: key(20) }));
    assert!(ctx.sealed_bid.bid_submitted);
    assert_eq!(ctx.sealed_bid.max_fdv_plaintext, Some(50_000));
    assert_eq!(handler_submit_bid(&mut ctx, 150, 60_000), Err(custom(ErrorCode::BidAlreadySubmitted)));

    let mut up = UpdateBidMb { sale: ctx.sale, sale_key: key(SALE_KEY), sealed_bid: ctx.sealed_bid, user: key(20) };
    assert_eq!(handler_update_bid_mb(&mut up, 160, 70_000), Ok(BidUpdated { sale: key(SALE_KEY), user: key(20) }));
    assert_eq!(up.sealed_bid.max_fdv_plaintext, Some(70_000));
    assert!(up.sealed_bid.bid_submitted);
}

#[test]
fn bid_write_errors() {
    let mut ctx = SubmitBid { sale: sale(), sale_key: key(SALE_KEY), sealed_bid: bid(20, 1_000), user: key(20) };
    assert_eq!(handler_submit_bid(&mut ctx, 150, 999), Err(custom(ErrorCode::MaxFdvOutOfRange)));
    assert_eq!(handler_submit_bid(&mut ctx, 150, 100_001), Err(custom(ErrorCode::MaxFdvOutOfRange)));
    assert_eq!(handler_submit_bid(&mut ctx, 99, 5_000), Err(custom(ErrorCode::OutsideCommitmentWindow)));
    assert_eq!(handler_submit_bid(&mut ctx, 201, 5_000), Err(custom(ErrorCode::CommitmentWindowClosed)));
    ctx.user = key(21);
    assert_eq!(handler_submit_bid(&mut ctx, 150, 5_000), Err(custom(ErrorCode::InvalidParameters)));
    ctx.sale.is_paused = true;
    assert_eq!(handler_submit_bid(&mut ctx, 150, 5_000), Err(custom(ErrorCode::SaleNotActive)));
    assert!(!ctx.sealed_bid.bid_submitted);

    let mut up = UpdateBidMb { sale: sale(), sale_key: key(SALE_KEY), sealed_bid: bid(20, 1_000), user: key(20) };
    assert_eq!(handler_update_bid_mb(&mut up, 150, 5_000), Err(custom(ErrorCode::BidNotSubmitted)));
}

#[test]
fn close_and_compute_sets_terms() {
    let mut ctx = CloseAndCompute { sale: sale(), sale_key: key(SALE_KEY) };
    assert_eq!(handler_close_and_compute(&mut ctx, 200, 10_000, 5_000, None, None), Err(custom(ErrorCode::CommitmentWindowNotEnded)));
    assert_eq!(handler_close_and_compute(&mut ctx, 201, 999, 5_000, None, None), Err(custom(ErrorCode::InvalidClearingFdv)));
    assert_eq!(handler_close_and_compute(&mut ctx, 201, 10_000, 0, None, None), Err(custom(ErrorCode::InvalidFillRate)));
    assert_eq!(handler_close_and_compute(&mut ctx, 201, 10_000, 5_000, Some(key(20)), None), Err(custom(ErrorCode::InvalidMarginalAllocation)));
    assert_eq!(
        handler_close_and_compute(&mut ctx, 201, 10_000, 5_000, Some(key(20)), Some(400)),
        Ok(SettlementComputed { sale: key(SALE_KEY), clearing_fdv: 10_000, fill_rate: 5_000 })
    );
    assert_eq!(ctx.sale.status, SaleStatus::Computing);
    assert!(ctx.sale.settlement_computed);
    assert_eq!(ctx.sale.marginal_allocation, Some(400));
    assert_eq!(handler_close_and_compute(&mut ctx, 202, 10_000, 5_000, None, None), Err(custom(ErrorCode::InvalidSaleStatus)));
}

#[test]
fn allocate_batch_allocates_and_erases() {
    let mut s = computing_sale(5_000);
    s.marginal_user = Some(key(22));
    s.marginal_allocation = Some(400);
    let mut ctx = AllocateBatch { sale: s, sale_key: key(SALE_KEY) };
    let mut accounts = vec![
        Some(submitted(20, 2_000, 50_000)),
        Some(submitted(21, 3_000, 5_000)),
        Some(submitted(22, 1_000, 10_000)),
    ];
    let r = handler_allocate_batch(&mut ctx, &mut accounts, &vec![0, 1, 2]);
    assert_eq!(r, Ok(BatchAllocated { sale: key(SALE_KEY), batch_size: 3, verification_count: 3 }));
    let a = accounts[0].unwrap();
    // Half of 2,000 at an FDV of 10,000 with a supply of 1,000,000.
    assert_eq!((a.allocation, a.refund, a.tokens, a.cleared, a.is_marginal), (1_000, 1_000, 100_000, true, false));
    let b = accounts[1].unwrap();
    assert_eq!((b.allocation, b.refund, b.tokens, b.cleared), (0, 3_000, 0, true));
    let c = accounts[2].unwrap();
    assert_eq!((c.allocation, c.refund, c.tokens, c.is_marginal), (400, 600, 40_000, true));
    assert!(accounts.iter().all(|acc| acc.unwrap().max_fdv_plaintext.is_none()));
    assert_eq!(ctx.sale.running_sum, 1_400);
    assert_eq!(ctx.sale.verification_count, 3);
    assert!(ctx.sale.marginal_user_verified);
    assert!(ctx.sale.bids_zeroed);
    assert_eq!(ctx.sale.status, SaleStatus::Allocated);
}

#[test]
fn allocate_batch_skips_allocated_bids() {
    let mut ctx = AllocateBatch { sale: computing_sale(10_000), sale_key: key(SALE_KEY) };
    let mut accounts = vec![Some(submitted(20, 2_000, 50_000))];
    let r = handler_allocate_batch(&mut ctx, &mut accounts, &vec![0, 0]);
    assert_eq!(r, Ok(BatchAllocated { sale: key(SALE_KEY), batch_size: 1, verification_count: 1 }));
    assert_eq!(accounts[0].unwrap().allocation, 2_000);
    assert_eq!(ctx.sale.running_sum, 2_000);
    assert_eq!(ctx.sale.status, SaleStatus::Computing);
}

#[test]
fn allocate_batch_errors() {
    let mut ctx = AllocateBatch { sale: computing_sale(10_000), sale_key: key(SALE_KEY) };
    let mut accounts = vec![Some(bid(20, 2_000)), None];
    assert_eq!(handler_allocate_batch(&mut ctx, &mut accounts, &vec![0]), Err(custom(ErrorCode::BidNotSubmitted)));
    assert_eq!(handler_allocate_batch(&mut ctx, &mut accounts, &vec![1]), Err(custom(ErrorCode::InvalidParameters)));
    assert_eq!(handler_allocate_batch(&mut ctx, &mut accounts, &vec![]), Err(custom(ErrorCode::BatchEmpty)));
    assert_eq!(handler_allocate_batch(&mut ctx, &mut accounts, &vec![0; 11]), Err(custom(ErrorCode::BatchSizeTooLarge)));
    ctx.sale.settlement_computed = false;
    assert_eq!(handler_allocate_batch(&mut ctx, &mut accounts, &vec![0]), Err(custom(ErrorCode::SettlementNotComputed)));
    ctx.sale.status = SaleStatus::Active;
    assert_eq!(handler_allocate_batch(&mut ctx, &mut accounts, &vec![0]), Err(custom(ErrorCode::InvalidSaleStatus)));
    assert_eq!(ctx.sale.running_sum, 0);
}

#[test]
fn undelegate_batch_rules() {
    let mut s = sale();
    s.status = SaleStatus::Allocated;
    s.bids_zeroed = true;
    let ctx = UndelegateBatch { sale: s, sale_key: key(SALE_KEY) };
    assert_eq!(handler_undelegate_batch(&ctx, 4), Ok(BatchUndelegated { sale: key(SALE_KEY), batch_size: 4 }));
    assert_eq!(handler_undelegate_batch(&ctx, 0), Err(custom(ErrorCode::BatchEmpty)));
    assert_eq!(handler_undelegate_batch(&ctx, 11), Err(custom(ErrorCode::BatchSizeTooLarge)));
    let mut ctx = ctx;
    ctx.sale.bids_zeroed = false;
    assert_eq!(handler_undelegate_batch(&ctx, 4), Err(custom(ErrorCode::BidsNotZeroed)));
    ctx.sale.status = SaleStatus::Computing;
    assert_eq!(handler_undelegate_batch(&ctx, 4), Err(custom(ErrorCode::InvalidSaleStatus)));
}

fn claim_ctx() -> ClaimAllocation {
    let mut s = sale();
    s.status = SaleStatus::Settled;
    s.claims_enabled = true;
    let mut b = bid(20, 2_000);
    b.cleared = true;
    b.allocation = 1_000;
    b.refund = 1_000;
    b.tokens = 100_000;
    ClaimAllocation {
        sale: s,
        sale_key: key(SALE_KEY),
        sealed_bid: b,
        user: key(20),
        token_mint: key(2),
        user_token_account_mint: key(2),
        user_token_account_owner: key(20),
        token_vault: key(5),
        usdc_mint: key(3),
        user_usdc_account_mint: key(3),
        user_usdc_account_owner: key(20),
        usdc_vault: key(4),
    }
}

#[test]
fn claim_allocation_pays_tokens_and_refund() {
    let mut ctx = claim_ctx();
    assert_eq!(
        handler_claim_allocation(&mut ctx),
        Ok(ClaimCompleted { sale: key(SALE_KEY), user: key(20), tokens: 100_000, refund: 1_000 })
    );
    assert!(ctx.sealed_bid.claimed);
    assert_eq!(handler_claim_allocation(&mut ctx), Err(custom(ErrorCode::AlreadyClaimed)));
}

#[test]
fn claim_allocation_errors() {
    let mut ctx = claim_ctx();
    ctx.sealed_bid.allocation = 0;
    ctx.sealed_bid.refund = 0;
    assert_eq!(handler_claim_allocation(&mut ctx), Err(custom(ErrorCode::InvalidParameters)));
    let mut ctx = claim_ctx();
    ctx.user_token_account_owner = key(21);
    assert_eq!(handler_claim_allocation(&mut ctx), Err(custom(ErrorCode::InvalidParameters)));
    let mut ctx = claim_ctx();
    ctx.sealed_bid.cleared = false;
    assert_eq!(handler_claim_allocation(&mut ctx), Err(custom(ErrorCode::InvalidParameters)));
    let mut ctx = claim_ctx();
    ctx.sale.claims_enabled = false;
    assert_eq!(handler_claim_allocation(&mut ctx), Err(custom(ErrorCode::InvalidSaleStatus)));
    ctx.sale.status = SaleStatus::Allocated;
    assert_eq!(handler_claim_allocation(&mut ctx), Err(custom(ErrorCode::SaleNotSettled)));
    assert!(!ctx.sealed_bid.claimed);
}

fn withdraw_ctx(status: SaleStatus, vault: u64) -> WithdrawUnsold {
    let mut s = sale();
    s.status = status;
    s.clearing_fdv = Some(10_000);
    s.running_sum = 1_400;
    WithdrawUnsold {
        sale: s,
        sale_key: key(SALE_KEY),
        authority: key(1),
        token_mint: key(2),
        token_vault: key(5),
        token_vault_amount: vault,
        token_treasury: key(7),
    }
}

#[test]
fn withdraw_unsold_keeps_what_buyers_are_owed() {
    // Buyers are owed 1,400 * 1,000,000 / 10,000 = 140,000 tokens.
    let ctx = withdraw_ctx(SaleStatus::Settled, 500_000);
    assert_eq!(handler_withdraw_unsold(&ctx), Ok(UnsoldWithdrawn { sale: key(SALE_KEY), amount: 360_000 }));
    let ctx = withdraw_ctx(SaleStatus::Cancelled, 500_000);
    assert_eq!(handler_withdraw_unsold(&ctx), Ok(UnsoldWithdrawn { sale: key(SALE_KEY), amount: 500_000 }));
}

#[test]
fn withdraw_unsold_errors() {
    assert_eq!(handler_withdraw_unsold(&withdraw_ctx(SaleStatus::Settled, 140_000)), Err(custom(ErrorCode::InsufficientTokens)));
    assert_eq!(handler_withdraw_unsold(&withdraw_ctx(SaleStatus::Settled, 0)), Err(custom(ErrorCode::InsufficientTokens)));
    assert_eq!(handler_withdraw_unsold(&withdraw_ctx(SaleStatus::Allocated, 500_000)), Err(custom(ErrorCode::InvalidSaleStatus)));
    let mut ctx = withdraw_ctx(SaleStatus::Settled, 500_000);
    ctx.token_treasury = key(6);
    assert_eq!(handler_withdraw_unsold(&ctx), Err(custom(ErrorCode::InvalidParameters)));
    ctx.authority = key(2);
    assert_eq!(handler_withdraw_unsold(&ctx), Err(ProgramError::ConstraintHasOne));
}

#[test]
fn refund_mode_rules() {
    let mut ctx = RefundSale { sale: sale(), sale_key: key(SALE_KEY), authority: key(1) };
    assert_eq!(handler_refund_sale(&mut ctx), Ok(RefundModeEnabled { sale: key(SALE_KEY) }));
    assert_eq!(ctx.sale.status, SaleStatus::Refunding);
    assert!(ctx.sale.claims_enabled);
    let mut s = sale();
    s.status = SaleStatus::Settled;
    let mut ctx = RefundSale { sale: s, sale_key: key(SALE_KEY), authority: key(1) };
    assert_eq!(handler_refund_sale(&mut ctx), Err(custom(ErrorCode::InvalidSaleStatus)));
    ctx.authority = key(4);
    assert_eq!(handler_refund_sale(&mut ctx), Err(ProgramError::ConstraintHasOne));
}

#[test]
fn allocate_batch_failing_late_writes_nothing() {
    let mut ctx = AllocateBatch { sale: computing_sale(10_000), sale_key: key(SALE_KEY) };
    let mut accounts = vec![Some(submitted(20, 2_000, 50_000)), Some(bid(21, 1_000))];
    assert_eq!(handler_allocate_batch(&mut ctx, &mut accounts, &vec![0, 1]), Err(custom(ErrorCode::BidNotSubmitted)));
    let a = accounts[0].unwrap();
    assert!(!a.cleared);
    assert_eq!(a.max_fdv_plaintext, Some(50_000));
    assert_eq!(ctx.sale.running_sum, 0);
}
