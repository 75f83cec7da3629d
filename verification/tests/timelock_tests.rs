use fundraising_program::program_error::{AccountDataError, ProgramError};
use fundraising_program::pubkey::Pubkey;
use fundraising_program::timelock::drand::{
    round_to_timestamp, timestamp_to_round, verify_drand_signature, QUICKNET_CHAIN_HASH,
    QUICKNET_GENESIS,
};
use fundraising_program::timelock::errors::ErrorCode;
use fundraising_program::timelock::instructions::batch_reveal_bids::{
    handler_batch_reveal_bids, BatchRevealBids, RevealedBidData,
};
use fundraising_program::timelock::instructions::batch_verify_and_allocate::{
    handler_batch_verify_and_allocate, BatchVerifyAndAllocate,
};
use fundraising_program::timelock::instructions::cancel_sale::{handler_cancel_sale, CancelSale};
use fundraising_program::timelock::instructions::claim_refund::{handler_claim_refund, ClaimRefund};
use fundraising_program::timelock::instructions::close_commitment_window::{
    handler_close_commitment_window, CloseCommitmentWindow,
};
use fundraising_program::timelock::instructions::finalize_settlement::{
    handler_finalize_settlement, FinalizeSettlement,
};
use fundraising_program::timelock::instructions::fund_sale::{handler_fund_sale, FundSale};
use fundraising_program::timelock::instructions::initialize_sale::{
    handler_initialize_sale, InitializeSale, SaleTerms, MIN_COMMITMENT,
};
use fundraising_program::timelock::instructions::pause_sale::{
    handler_pause_sale, handler_unpause_sale, PauseSale, UnpauseSale,
};
use fundraising_program::timelock::instructions::propose_settlement::{
    handler_propose_settlement, ProposeSettlement,
};
use fundraising_program::timelock::instructions::verify_and_allocate::{
    handler_verify_and_allocate, VerifyAndAllocate,
};
use fundraising_program::timelock::instructions::withdraw_raised::{
    handler_withdraw_raised, WithdrawRaised,
};
use fundraising_program::timelock::state::{BidAccount, Sale, SaleStatus, SealedBid};
use sha2::{Digest, Sha256};

type Error = ProgramError<ErrorCode>;

fn key(n: u8) -> Pubkey {
    Pubkey([n; 32])
}

fn custom(code: ErrorCode) -> Error {
    ProgramError::Custom(code)
}

const AUTHORITY: u8 = 1;
const SALE_KEY: u8 = 9;
const PROGRAM: u8 = 8;
const END: i64 = 1_800_000_000;

fn sale() -> Sale {
    Sale {
        authority: key(AUTHORITY),
        token_mint: key(2),
        usdc_mint: key(3),
        usdc_vault: key(4),
        token_vault: key(5),
        usdc_treasury: key(6),
        token_supply: 1_000_000_000,
        supply_percentage: 2_500,
        raise_min: 1_000,
        raise_max: 10_000,
        fdv_min: 1_000_000,
        fdv_max: 100_000_000,
        min_commitment: MIN_COMMITMENT,
        commitment_start: END - 3_600,
        commitment_end: END,
        score_merkle_root: [0u8; 32],
        clearing_fdv: None,
        total_cleared_commits: None,
        fill_rate: None,
        marginal_user: None,
        marginal_allocation: None,
        marginal_user_verified: false,
        proposer: None,
        verification_count: 0,
        total_users: 2,
        total_committed: 5_000,
        running_sum: 0,
        settlement_nonce: 0,
        last_proposal_time: 0,
        status: SaleStatus::Active,
        is_paused: false,
        claims_enabled: false,
        drand_reveal_round: timestamp_to_round(END),
        drand_chain_hash: QUICKNET_CHAIN_HASH,
        reveal_count: 0,
        all_bids_revealed: false,
        commitment_ended_at: 0,
        name: String::from("sale"),
        created_at: 0,
        bump: 255,
    }
}

fn bid(user: u8, amount: u64) -> SealedBid {
    SealedBid {
        is_initialized: true,
        sale: key(SALE_KEY),
        user: key(user),
        amount,
        hash_commitment: [0u8; 32],
        max_fdv_encrypted: None,
        max_fdv_plaintext: None,
        drand_round: timestamp_to_round(END),
        bid_revealed: false,
        cleared: false,
        is_marginal: false,
        allocation: 0,
        refund: 0,
        tokens: 0,
        claimed: false,
        verified_for_nonce: 0,
        commit_time: END - 100,
        bump: 254,
    }
}

fn revealed_bid(user: u8, amount: u64, max_fdv: u64) -> SealedBid {
    let mut b = bid(user, amount);
    b.bid_revealed = true;
    b.max_fdv_plaintext = Some(max_fdv);
    b
}

fn commitment(max_fdv: u64, salt: &[u8; 16]) -> [u8; 32] {
    let mut message = max_fdv.to_le_bytes().to_vec();
    message.extend_from_slice(salt);
    Sha256::digest(&message).into()
}

fn bid_address(user: u8) -> Pubkey {
    let program = anchor_lang::prelude::Pubkey::new_from_array([PROGRAM; 32]);
    let (address, _) = anchor_lang::prelude::Pubkey::find_program_address(
        &[b"sealed_bid", &[SALE_KEY; 32], &[user; 32]],
        &program,
    );
    Pubkey(address.to_bytes())
}

fn terms() -> SaleTerms {
    SaleTerms {
        token_supply: 1_000_000,
        supply_percentage: 2_500,
        raise_min: 100,
        raise_max: 1_000,
        fdv_min: 10,
        fdv_max: 1_000,
        commitment_start: 2_000,
        commitment_end: 5_000,
        score_merkle_root: [7u8; 32],
    }
}

fn init_ctx() -> InitializeSale {
    InitializeSale {
        authority: key(1),
        token_mint: key(2),
        usdc_mint: key(3),
        usdc_vault: key(4),
        token_vault: key(5),
        usdc_treasury: key(6),
        sale_bump: 250,
    }
}

// ---- drand ----

#[test]
fn round_of_genesis_and_before_is_one() {
    assert_eq!(timestamp_to_round(QUICKNET_GENESIS), 1);
    assert_eq!(timestamp_to_round(0), 1);
}

#[test]
fn round_rounds_up() {
    assert_eq!(timestamp_to_round(QUICKNET_GENESIS + 1), 1);
    assert_eq!(timestamp_to_round(QUICKNET_GENESIS + 3), 1);
    assert_eq!(timestamp_to_round(QUICKNET_GENESIS + 4), 2);
    assert_eq!(timestamp_to_round(QUICKNET_GENESIS + 3_000), 1_000);
}

#[test]
fn round_time_and_back() {
    assert_eq!(round_to_timestamp(0), QUICKNET_GENESIS);
    assert_eq!(round_to_timestamp(1_000), QUICKNET_GENESIS + 3_000);
    assert_eq!(timestamp_to_round(round_to_timestamp(12_345)), 12_345);
    let t = QUICKNET_GENESIS + 1_000;
    let r = timestamp_to_round(t);
    assert!(round_to_timestamp(r) >= t && round_to_timestamp(r) < t + 3);
}

#[test]
fn drand_signature_checks() {
    let mut signature = [0u8; 48];
    signature[0] = 1;
    assert_eq!(verify_drand_signature(&QUICKNET_CHAIN_HASH, 5, &signature), Ok(()));
    assert_eq!(
        verify_drand_signature(&QUICKNET_CHAIN_HASH, 5, &[0u8; 48]),
        Err(custom(ErrorCode::InvalidDrandSignature))
    );
    assert_eq!(
        verify_drand_signature(&QUICKNET_CHAIN_HASH, 5, &[0xffu8; 48]),
        Err(custom(ErrorCode::InvalidDrandSignature))
    );
    assert_eq!(
        verify_drand_signature(&[0u8; 8], 5, &signature),
        Err(custom(ErrorCode::InvalidDrandSignature))
    );
}

// ---- initialize_sale ----

#[test]
fn initialize_sale_writes_terms() {
    let sale = handler_initialize_sale(&init_ctx(), String::from("Demo"), terms(), 1_000).unwrap();
    assert_eq!(sale.authority, key(1));
    assert_eq!(sale.token_vault, key(5));
    assert_eq!(sale.usdc_treasury, key(6));
    assert_eq!(sale.raise_max, 1_000);
    assert_eq!(sale.min_commitment, 5_000_000);
    let mut t = terms();
    t.commitment_end = t.commitment_start + 900;
    assert!(handler_initialize_sale(&init_ctx(), String::new(), t, 1_000).is_ok());
    assert_eq!(sale.status, SaleStatus::Initialized);
    assert_eq!(sale.drand_reveal_round, 1);
    assert_eq!(sale.drand_chain_hash, QUICKNET_CHAIN_HASH);
    assert_eq!(sale.name, "Demo");
    assert_eq!(sale.created_at, 1_000);
    assert_eq!(sale.bump, 250);
    assert_eq!(sale.total_users, 0);
    assert!(sale.clearing_fdv.is_none());
}

#[test]
fn initialize_sale_reveal_round_follows_window() {
    let mut t = terms();
    t.commitment_start = QUICKNET_GENESIS + 10;
    t.commitment_end = QUICKNET_GENESIS + 3_000;
    let sale = handler_initialize_sale(&init_ctx(), String::new(), t, 0).unwrap();
    assert_eq!(sale.drand_reveal_round, 1_000);
}

#[test]
fn initialize_sale_errors() {
    let check = |t: SaleTerms, now: i64, code: ErrorCode| {
        let r = handler_initialize_sale(&init_ctx(), String::new(), t, now);
        assert_eq!(r.err(), Some(custom(code)));
    };
    let mut t = terms();
    t.raise_min = 0;
    check(t, 0, ErrorCode::InvalidRaiseRange);
    let mut t = terms();
    t.raise_min = 2_000;
    check(t, 0, ErrorCode::InvalidRaiseRange);
    let mut t = terms();
    t.supply_percentage = 10_001;
    check(t, 0, ErrorCode::InvalidSupplyRange);
    let mut t = terms();
    t.fdv_min = 0;
    check(t, 0, ErrorCode::InvalidFdvRange);
    let mut t = terms();
    t.commitment_end = t.commitment_start;
    check(t, 0, ErrorCode::InvalidTiming);
    let mut t = terms();
    t.token_supply = 0;
    check(t, 0, ErrorCode::InvalidParameters);
    let mut t = terms();
    t.commitment_start = i64::MIN;
    t.commitment_end = 1;
    check(t, -i64::MAX, ErrorCode::ArithmeticOverflow);
    let mut t = terms();
    t.commitment_end = t.commitment_start + 899;
    check(t, 0, ErrorCode::CommitmentWindowTooShort);
    let mut t = terms();
    t.commitment_end = t.commitment_start + 100;
    check(t, 0, ErrorCode::CommitmentWindowTooShort);
    check(terms(), 2_000, ErrorCode::InvalidTimestamps);
}

// ---- fund_sale ----

fn fund_ctx() -> FundSale {
    let mut s = sale();
    s.status = SaleStatus::Initialized;
    FundSale {
        sale: s,
        authority: key(AUTHORITY),
        token_mint: key(2),
        authority_token_account_mint: key(2),
        authority_token_account_owner: key(AUTHORITY),
        token_vault: key(5),
    }
}

#[test]
fn fund_sale_activates() {
    let mut ctx = fund_ctx();
    // 25% of 1,000,000,000 tokens.
    assert_eq!(handler_fund_sale(&mut ctx, 250_000_000, 0), Ok(250_000_000));
    assert_eq!(ctx.sale.status, SaleStatus::Active);
}

#[test]
fn fund_sale_errors() {
    let mut ctx = fund_ctx();
    assert_eq!(
        handler_fund_sale(&mut ctx, 249_999_999, 0),
        Err(custom(ErrorCode::InsufficientTokens))
    );
    assert_eq!(ctx.sale.status, SaleStatus::Initialized);
    assert_eq!(handler_fund_sale(&mut ctx, 0, 0), Err(custom(ErrorCode::InvalidAmount)));
    assert_eq!(
        handler_fund_sale(&mut ctx, 250_000_000, END - 3_600),
        Err(custom(ErrorCode::CommitmentWindowClosed))
    );
    let mut ctx = fund_ctx();
    ctx.authority = key(77);
    assert_eq!(handler_fund_sale(&mut ctx, 250_000_000, 0), Err(custom(ErrorCode::InvalidParameters)));
    let mut ctx = fund_ctx();
    ctx.sale.status = SaleStatus::Active;
    assert_eq!(
        handler_fund_sale(&mut ctx, 250_000_000, 0),
        Err(custom(ErrorCode::SaleNotInitialized))
    );
}

// ---- close_commitment_window ----

#[test]
fn close_window_after_end() {
    let mut ctx = CloseCommitmentWindow { sale: sale() };
    assert_eq!(
        handler_close_commitment_window(&mut ctx, END),
        Err(custom(ErrorCode::CommitmentWindowNotClosed))
    );
    assert_eq!(handler_close_commitment_window(&mut ctx, END + 1), Ok(()));
    assert_eq!(ctx.sale.status, SaleStatus::Revealing);
    assert_eq!(
        handler_close_commitment_window(&mut ctx, END + 2),
        Err(custom(ErrorCode::InvalidSaleStatus))
    );
}

// ---- batch_reveal_bids ----

fn reveal_setup() -> (BatchRevealBids, Vec<BidAccount>, [u8; 16], [u8; 16]) {
    let mut s = sale();
    s.status = SaleStatus::Revealing;
    let salt_a = [11u8; 16];
    let salt_b = [12u8; 16];
    let mut bid_a = bid(20, 3_000);
    bid_a.hash_commitment = commitment(50_000_000, &salt_a);
    let mut bid_b = bid(21, 2_000);
    bid_b.hash_commitment = commitment(2_000_000, &salt_b);
    let accounts = vec![
        BidAccount { key: bid_address(20), owner: key(PROGRAM), lamports: 1_000_000, bid: Ok(bid_a) },
        BidAccount { key: bid_address(21), owner: key(PROGRAM), lamports: 1_000_000, bid: Ok(bid_b) },
    ];
    let ctx = BatchRevealBids { sale: s, sale_key: key(SALE_KEY), program_id: key(PROGRAM) };
    (ctx, accounts, salt_a, salt_b)
}

fn signature() -> [u8; 48] {
    let mut s = [3u8; 48];
    s[0] = 4;
    s
}

#[test]
fn batch_reveal_reveals_all_bids() {
    let (mut ctx, mut accounts, salt_a, salt_b) = reveal_setup();
    let round = ctx.sale.drand_reveal_round;
    let revealed = vec![
        RevealedBidData { user: key(20), max_fdv: 50_000_000, salt: salt_a },
        RevealedBidData { user: key(21), max_fdv: 2_000_000, salt: salt_b },
    ];
    let r = handler_batch_reveal_bids(&mut ctx, &mut accounts, &vec![0, 1], round, signature(), &revealed, END + 50);
    assert_eq!(r, Ok(()));
    let a = accounts[0].bid.as_ref().unwrap();
    assert!(a.bid_revealed);
    assert_eq!(a.max_fdv_plaintext, Some(50_000_000));
    assert_eq!(accounts[1].bid.as_ref().unwrap().max_fdv_plaintext, Some(2_000_000));
    assert_eq!(ctx.sale.reveal_count, 2);
    assert!(ctx.sale.all_bids_revealed);
    assert_eq!(ctx.sale.status, SaleStatus::CommitmentEnded);
    assert_eq!(ctx.sale.commitment_ended_at, END + 50);
}

#[test]
fn batch_reveal_partial_keeps_revealing() {
    let (mut ctx, mut accounts, salt_a, _) = reveal_setup();
    let round = ctx.sale.drand_reveal_round;
    let revealed = vec![RevealedBidData { user: key(20), max_fdv: 50_000_000, salt: salt_a }];
    let r = handler_batch_reveal_bids(&mut ctx, &mut accounts, &vec![0], round, signature(), &revealed, END + 50);
    assert_eq!(r, Ok(()));
    assert_eq!(ctx.sale.reveal_count, 1);
    assert!(!ctx.sale.all_bids_revealed);
    assert_eq!(ctx.sale.status, SaleStatus::Revealing);
}

#[test]
fn batch_reveal_rejects_wrong_salt() {
    let (mut ctx, mut accounts, _, _) = reveal_setup();
    let round = ctx.sale.drand_reveal_round;
    let revealed = vec![RevealedBidData { user: key(20), max_fdv: 50_000_000, salt: [0u8; 16] }];
    let r = handler_batch_reveal_bids(&mut ctx, &mut accounts, &vec![0], round, signature(), &revealed, END + 50);
    assert_eq!(r, Err(custom(ErrorCode::HashCommitmentMismatch)));
    assert_eq!(ctx.sale.reveal_count, 0);
}

#[test]
fn batch_reveal_account_checks() {
    let (mut ctx, mut accounts, salt_a, _) = reveal_setup();
    let round = ctx.sale.drand_reveal_round;
    let revealed = vec![RevealedBidData { user: key(20), max_fdv: 50_000_000, salt: salt_a }];
    accounts[0].key = key(99);
    let r = handler_batch_reveal_bids(&mut ctx, &mut accounts, &vec![0], round, signature(), &revealed, END);
    assert_eq!(r, Err(custom(ErrorCode::InvalidParameters)));
    accounts[0].owner = key(98);
    let r = handler_batch_reveal_bids(&mut ctx, &mut accounts, &vec![0], round, signature(), &revealed, END);
    assert_eq!(r, Err(ProgramError::AccountOwnedByWrongProgram));
    accounts[0].owner = key(PROGRAM);
    let sealed = std::mem::replace(&mut accounts[0].bid, Err(AccountDataError::DiscriminatorMismatch));
    let r = handler_batch_reveal_bids(&mut ctx, &mut accounts, &vec![0], round, signature(), &revealed, END);
    assert_eq!(r, Err(ProgramError::AccountDiscriminatorMismatch));
    accounts[0].bid = Err(AccountDataError::DiscriminatorNotFound);
    let r = handler_batch_reveal_bids(&mut ctx, &mut accounts, &vec![0], round, signature(), &revealed, END);
    assert_eq!(r, Err(ProgramError::AccountDiscriminatorNotFound));
    accounts[0].bid = Err(AccountDataError::DidNotDeserialize);
    let r = handler_batch_reveal_bids(&mut ctx, &mut accounts, &vec![0], round, signature(), &revealed, END);
    assert_eq!(r, Err(ProgramError::AccountDidNotDeserialize));
    // An empty system account is not initialized.
    accounts[0].bid = sealed;
    accounts[0].owner = Pubkey([0u8; 32]);
    accounts[0].lamports = 0;
    let r = handler_batch_reveal_bids(&mut ctx, &mut accounts, &vec![0], round, signature(), &revealed, END);
    assert_eq!(r, Err(ProgramError::AccountNotInitialized));
    accounts[0].lamports = 1;
    let r = handler_batch_reveal_bids(&mut ctx, &mut accounts, &vec![0], round, signature(), &revealed, END);
    assert_eq!(r, Err(ProgramError::AccountOwnedByWrongProgram));
}

#[test]
fn batch_reveal_rejects_repeated_reveal_and_bad_inputs() {
    let (mut ctx, mut accounts, salt_a, _) = reveal_setup();
    let round = ctx.sale.drand_reveal_round;
    let one = vec![RevealedBidData { user: key(20), max_fdv: 50_000_000, salt: salt_a }];
    let two = vec![one[0], one[0]];
    let r = handler_batch_reveal_bids(&mut ctx, &mut accounts, &vec![0, 0], round, signature(), &two, END);
    assert_eq!(r, Err(custom(ErrorCode::BidAlreadyRevealed)));
    // Nothing was written: the first bid is still sealed.
    assert!(!accounts[0].bid.as_ref().unwrap().bid_revealed);
    assert_eq!(accounts[0].bid.as_ref().unwrap().max_fdv_plaintext, None);
    let (mut ctx, mut accounts, _, _) = reveal_setup();
    let r = handler_batch_reveal_bids(&mut ctx, &mut accounts, &vec![0], round + 1, signature(), &one, END);
    assert_eq!(r, Err(custom(ErrorCode::InvalidDrandRound)));
    let r = handler_batch_reveal_bids(&mut ctx, &mut accounts, &vec![], round, signature(), &vec![], END);
    assert_eq!(r, Err(custom(ErrorCode::InvalidParameters)));
    let r = handler_batch_reveal_bids(&mut ctx, &mut accounts, &vec![0], round, [0u8; 48], &one, END);
    assert_eq!(r, Err(custom(ErrorCode::InvalidDrandSignature)));
    let bad_fdv = vec![RevealedBidData { user: key(20), max_fdv: 1, salt: salt_a }];
    let r = handler_batch_reveal_bids(&mut ctx, &mut accounts, &vec![0], round, signature(), &bad_fdv, END);
    assert_eq!(r, Err(custom(ErrorCode::InvalidFdvRange)));
    ctx.sale.status = SaleStatus::Active;
    let r = handler_batch_reveal_bids(&mut ctx, &mut accounts, &vec![0], round, signature(), &one, END);
    assert_eq!(r, Err(custom(ErrorCode::SaleNotRevealing)));
}

// ---- propose_settlement ----

fn propose_ctx() -> ProposeSettlement {
    let mut s = sale();
    s.status = SaleStatus::CommitmentEnded;
    s.all_bids_revealed = true;
    s.commitment_ended_at = END + 10;
    ProposeSettlement { sale: s, proposer: key(AUTHORITY) }
}

#[test]
fn propose_settlement_records_the_proposal() {
    let mut ctx = propose_ctx();
    let r = handler_propose_settlement(&mut ctx, END + 30, 10_000_000, 10_000, None, None);
    assert_eq!(r, Ok(()));
    assert_eq!(ctx.sale.status, SaleStatus::Proposed);
    assert_eq!(ctx.sale.settlement_nonce, 1);
    assert_eq!(ctx.sale.clearing_fdv, Some(10_000_000));
    assert_eq!(ctx.sale.fill_rate, Some(10_000));
    assert_eq!(ctx.sale.proposer, Some(key(AUTHORITY)));
    assert_eq!(ctx.sale.last_proposal_time, END + 30);
    // A second proposal has to wait for the cooldown.
    let r = handler_propose_settlement(&mut ctx, END + 89, 10_000_000, 10_000, None, None);
    assert_eq!(r, Err(custom(ErrorCode::InvalidTimestamps)));
    let r = handler_propose_settlement(&mut ctx, END + 90, 20_000_000, 5_000, Some(key(20)), Some(100));
    assert_eq!(r, Ok(()));
    assert_eq!(ctx.sale.settlement_nonce, 2);
    assert_eq!(ctx.sale.marginal_user, Some(key(20)));
    assert_eq!(ctx.sale.marginal_allocation, Some(100));
}

#[test]
fn propose_settlement_errors() {
    let mut ctx = propose_ctx();
    let fdv = 10_000_000;
    assert_eq!(handler_propose_settlement(&mut ctx, END + 29, fdv, 10_000, None, None), Err(custom(ErrorCode::InvalidTimestamps)));
    assert_eq!(handler_propose_settlement(&mut ctx, END, fdv, 10_000, None, None), Err(custom(ErrorCode::CommitmentWindowNotEnded)));
    assert_eq!(handler_propose_settlement(&mut ctx, END + 30, 1, 10_000, None, None), Err(custom(ErrorCode::InvalidClearingFdv)));
    assert_eq!(handler_propose_settlement(&mut ctx, END + 30, fdv, 0, None, None), Err(custom(ErrorCode::InvalidFillRate)));
    assert_eq!(handler_propose_settlement(&mut ctx, END + 30, fdv, 10_001, None, None), Err(custom(ErrorCode::InvalidFillRate)));
    // 60% of 20,000 committed is 12,000, above 110% of the 10,000 cap.
    ctx.sale.total_committed = 20_000;
    assert_eq!(handler_propose_settlement(&mut ctx, END + 30, fdv, 6_000, None, None), Err(custom(ErrorCode::InvalidFillRate)));
    assert_eq!(handler_propose_settlement(&mut ctx, END + 30, fdv, 10_000, Some(key(20)), None), Err(custom(ErrorCode::InvalidMarginalAllocation)));
    assert_eq!(handler_propose_settlement(&mut ctx, END + 30, fdv, 10_000, None, Some(10_001)), Err(custom(ErrorCode::InvalidMarginalAllocation)));
    ctx.sale.all_bids_revealed = false;
    assert_eq!(handler_propose_settlement(&mut ctx, END + 30, fdv, 10_000, None, None), Err(custom(ErrorCode::BidsNotRevealed)));
    ctx.sale.total_users = 0;
    assert_eq!(handler_propose_settlement(&mut ctx, END + 30, fdv, 10_000, None, None), Err(custom(ErrorCode::InsufficientDemand)));
    ctx.proposer = key(42);
    assert_eq!(handler_propose_settlement(&mut ctx, END + 30, fdv, 10_000, None, None), Err(custom(ErrorCode::Unauthorized)));
    ctx.sale.status = SaleStatus::Revealing;
    assert_eq!(handler_propose_settlement(&mut ctx, END + 30, fdv, 10_000, None, None), Err(custom(ErrorCode::InvalidSaleStatus)));
    assert_eq!(ctx.sale.settlement_nonce, 0);
}

// ---- verification ----

fn proposed_sale(fill_rate: u64) -> Sale {
    let mut s = sale();
    s.status = SaleStatus::Proposed;
    s.all_bids_revealed = true;
    s.clearing_fdv = Some(10_000_000);
    s.fill_rate = Some(fill_rate);
    s.settlement_nonce = 1;
    s
}

#[test]
fn verify_single_bid_above_clearing() {
    let mut ctx = VerifyAndAllocate {
        sale: proposed_sale(5_000),
        sale_key: key(SALE_KEY),
        sealed_bid: revealed_bid(20, 3_000, 50_000_000),
    };
    assert_eq!(handler_verify_and_allocate(&mut ctx), Ok(()));
    assert!(ctx.sealed_bid.cleared);
    assert_eq!(ctx.sealed_bid.allocation, 1_500);
    assert_eq!(ctx.sealed_bid.refund, 1_500);
    // 1,500 * 1,000,000,000 / 10,000,000
    assert_eq!(ctx.sealed_bid.tokens, 150_000);
    assert_eq!(ctx.sealed_bid.verified_for_nonce, 1);
    assert_eq!(ctx.sale.running_sum, 1_500);
    assert_eq!(ctx.sale.verification_count, 1);
    assert_eq!(ctx.sale.status, SaleStatus::Verifying);
    assert_eq!(handler_verify_and_allocate(&mut ctx), Err(custom(ErrorCode::AlreadyVerified)));
}

#[test]
fn verify_single_bid_below_clearing_is_refunded() {
    let mut ctx = VerifyAndAllocate {
        sale: proposed_sale(10_000),
        sale_key: key(SALE_KEY),
        sealed_bid: revealed_bid(21, 2_000, 2_000_000),
    };
    assert_eq!(handler_verify_and_allocate(&mut ctx), Ok(()));
    assert!(!ctx.sealed_bid.cleared);
    assert_eq!(ctx.sealed_bid.allocation, 0);
    assert_eq!(ctx.sealed_bid.refund, 2_000);
    assert_eq!(ctx.sealed_bid.tokens, 0);
    assert_eq!(ctx.sale.running_sum, 0);
}

#[test]
fn verify_marginal_bidder_gets_marginal_allocation() {
    let mut s = proposed_sale(10_000);
    s.marginal_user = Some(key(22));
    s.marginal_allocation = Some(700);
    let mut ctx = VerifyAndAllocate {
        sale: s,
        sale_key: key(SALE_KEY),
        sealed_bid: revealed_bid(22, 1_000, 10_000_000),
    };
    assert_eq!(handler_verify_and_allocate(&mut ctx), Ok(()));
    assert!(ctx.sealed_bid.is_marginal);
    assert_eq!(ctx.sealed_bid.allocation, 700);
    assert_eq!(ctx.sealed_bid.refund, 300);
    assert!(ctx.sale.marginal_user_verified);
}

#[test]
fn verify_dust_allocation_is_refunded() {
    // 1 USDC at a clearing FDV above the supply buys no token.
    let mut s = proposed_sale(10_000);
    s.token_supply = 1_000;
    let mut ctx = VerifyAndAllocate {
        sale: s,
        sale_key: key(SALE_KEY),
        sealed_bid: revealed_bid(20, 1, 50_000_000),
    };
    assert_eq!(handler_verify_and_allocate(&mut ctx), Ok(()));
    assert!(!ctx.sealed_bid.cleared);
    assert_eq!(ctx.sealed_bid.allocation, 0);
    assert_eq!(ctx.sealed_bid.refund, 1);
}

#[test]
fn verify_errors() {
    let mut ctx = VerifyAndAllocate {
        sale: proposed_sale(10_000),
        sale_key: key(SALE_KEY),
        sealed_bid: bid(20, 1_000),
    };
    assert_eq!(handler_verify_and_allocate(&mut ctx), Err(custom(ErrorCode::BidNotRevealed)));
    ctx.sealed_bid.amount = 0;
    assert_eq!(handler_verify_and_allocate(&mut ctx), Err(custom(ErrorCode::InvalidAmount)));
    ctx.sealed_bid.sale = key(1);
    assert_eq!(handler_verify_and_allocate(&mut ctx), Err(custom(ErrorCode::InvalidParameters)));
    ctx.sale.status = SaleStatus::Settled;
    assert_eq!(handler_verify_and_allocate(&mut ctx), Err(custom(ErrorCode::InvalidSaleStatus)));
}

#[test]
fn batch_verify_allocates_each_bid() {
    let mut accounts = vec![
        BidAccount { key: bid_address(20), owner: key(PROGRAM), lamports: 1_000_000, bid: Ok(revealed_bid(20, 3_000, 50_000_000)) },
        BidAccount { key: bid_address(21), owner: key(PROGRAM), lamports: 1_000_000, bid: Ok(revealed_bid(21, 2_000, 2_000_000)) },
    ];
    let mut ctx = BatchVerifyAndAllocate {
        sale: proposed_sale(10_000),
        sale_key: key(SALE_KEY),
        program_id: key(PROGRAM),
    };
    assert_eq!(handler_batch_verify_and_allocate(&mut ctx, &mut accounts, &vec![0, 1]), Ok(()));
    let a = accounts[0].bid.as_ref().unwrap();
    assert_eq!((a.allocation, a.refund, a.cleared), (3_000, 0, true));
    let b = accounts[1].bid.as_ref().unwrap();
    assert_eq!((b.allocation, b.refund, b.cleared), (0, 2_000, false));
    assert_eq!(ctx.sale.running_sum, 3_000);
    assert_eq!(ctx.sale.verification_count, 2);
    assert_eq!(ctx.sale.status, SaleStatus::Verifying);
}

#[test]
fn batch_verify_errors() {
    let mut accounts = vec![BidAccount {
        key: bid_address(20),
        owner: key(PROGRAM),
        lamports: 1_000_000,
        bid: Ok(revealed_bid(20, 3_000, 50_000_000)),
    }];
    let mut ctx = BatchVerifyAndAllocate {
        sale: proposed_sale(10_000),
        sale_key: key(SALE_KEY),
        program_id: key(PROGRAM),
    };
    assert_eq!(handler_batch_verify_and_allocate(&mut ctx, &mut accounts, &vec![]), Err(custom(ErrorCode::BatchEmpty)));
    assert_eq!(
        handler_batch_verify_and_allocate(&mut ctx, &mut accounts, &vec![0; 11]),
        Err(custom(ErrorCode::BatchSizeTooLarge))
    );
    // The same account twice: the second time it is already verified.
    assert_eq!(
        handler_batch_verify_and_allocate(&mut ctx, &mut accounts, &vec![0, 0]),
        Err(custom(ErrorCode::AlreadyVerified))
    );
    assert_eq!(ctx.sale.running_sum, 0);
    // Nothing was written: the bid can still be verified.
    assert_eq!(accounts[0].bid.as_ref().unwrap().verified_for_nonce, 0);
    assert_eq!(accounts[0].bid.as_ref().unwrap().allocation, 0);
    let mut accounts = vec![BidAccount {
        key: key(99),
        owner: key(PROGRAM),
        lamports: 1_000_000,
        bid: Ok(revealed_bid(20, 3_000, 50_000_000)),
    }];
    assert_eq!(
        handler_batch_verify_and_allocate(&mut ctx, &mut accounts, &vec![0]),
        Err(custom(ErrorCode::InvalidParameters))
    );
    ctx.sale.fill_rate = None;
    assert_eq!(
        handler_batch_verify_and_allocate(&mut ctx, &mut accounts, &vec![0]),
        Err(custom(ErrorCode::InvalidSaleStatus))
    );
}

// ---- finalize, withdraw, cancel, refund, pause ----

fn verified_sale() -> Sale {
    let mut s = proposed_sale(10_000);
    s.status = SaleStatus::Verifying;
    s.verification_count = 2;
    s.running_sum = 3_000;
    s
}

#[test]
fn finalize_settles_a_verified_sale() {
    let mut ctx = FinalizeSettlement { sale: verified_sale(), token_vault: key(5), token_vault_amount: 300_000 };
    assert_eq!(handler_finalize_settlement(&mut ctx), Ok(()));
    assert_eq!(ctx.sale.status, SaleStatus::Settled);
    assert_eq!(ctx.sale.total_cleared_commits, Some(3_000));
}

#[test]
fn finalize_errors() {
    let mut ctx = FinalizeSettlement { sale: verified_sale(), token_vault: key(5), token_vault_amount: 299_999 };
    assert_eq!(handler_finalize_settlement(&mut ctx), Err(custom(ErrorCode::InsufficientTokens)));
    ctx.sale.running_sum = 999;
    assert_eq!(handler_finalize_settlement(&mut ctx), Err(custom(ErrorCode::RunningSumBelowMin)));
    ctx.sale.running_sum = 10_001;
    assert_eq!(handler_finalize_settlement(&mut ctx), Err(custom(ErrorCode::RunningSumExceedsMax)));
    ctx.sale.marginal_user = Some(key(22));
    assert_eq!(handler_finalize_settlement(&mut ctx), Err(custom(ErrorCode::VerificationIncomplete)));
    ctx.sale.verification_count = 1;
    assert_eq!(handler_finalize_settlement(&mut ctx), Err(custom(ErrorCode::VerificationIncomplete)));
    ctx.token_vault = key(6);
    assert_eq!(handler_finalize_settlement(&mut ctx), Err(custom(ErrorCode::InvalidParameters)));
    ctx.sale.status = SaleStatus::Proposed;
    assert_eq!(handler_finalize_settlement(&mut ctx), Err(custom(ErrorCode::InvalidSaleStatus)));
    assert_eq!(ctx.sale.status, SaleStatus::Proposed);
}

#[test]
fn withdraw_raised_moves_running_sum() {
    let mut s = verified_sale();
    s.status = SaleStatus::Settled;
    let mut ctx = WithdrawRaised {
        sale: s,
        authority: key(AUTHORITY),
        usdc_mint: key(3),
        usdc_vault: key(4),
        usdc_vault_amount: 5_000,
        usdc_treasury: key(6),
    };
    assert_eq!(handler_withdraw_raised(&mut ctx), Ok(3_000));
    assert_eq!(ctx.sale.status, SaleStatus::Finalized);
    assert_eq!(handler_withdraw_raised(&mut ctx), Err(custom(ErrorCode::InvalidSaleStatus)));
}

#[test]
fn withdraw_raised_errors() {
    let mut s = verified_sale();
    s.status = SaleStatus::Settled;
    let mut ctx = WithdrawRaised {
        sale: s,
        authority: key(AUTHORITY),
        usdc_mint: key(3),
        usdc_vault: key(4),
        usdc_vault_amount: 2_999,
        usdc_treasury: key(6),
    };
    assert_eq!(handler_withdraw_raised(&mut ctx), Err(custom(ErrorCode::InsufficientFunds)));
    ctx.usdc_treasury = key(7);
    assert_eq!(handler_withdraw_raised(&mut ctx), Err(custom(ErrorCode::InvalidParameters)));
    ctx.authority = key(7);
    assert_eq!(handler_withdraw_raised(&mut ctx), Err(ProgramError::ConstraintHasOne));
}

#[test]
fn cancel_sale_rules() {
    let mut ctx = CancelSale { sale: sale(), authority: key(AUTHORITY) };
    assert_eq!(handler_cancel_sale(&mut ctx), Ok(()));
    assert_eq!(ctx.sale.status, SaleStatus::Cancelled);

    let mut ctx = CancelSale { sale: verified_sale(), authority: key(AUTHORITY) };
    assert_eq!(handler_cancel_sale(&mut ctx), Err(custom(ErrorCode::CannotCancelDuringVerification)));
    ctx.sale.total_committed = 999;
    assert_eq!(handler_cancel_sale(&mut ctx), Ok(()));

    let mut s = sale();
    s.status = SaleStatus::Settled;
    let mut ctx = CancelSale { sale: s, authority: key(AUTHORITY) };
    assert_eq!(handler_cancel_sale(&mut ctx), Err(custom(ErrorCode::CannotCancelSettledSale)));
    ctx.authority = key(2);
    assert_eq!(handler_cancel_sale(&mut ctx), Err(ProgramError::ConstraintHasOne));
}

fn refund_ctx() -> ClaimRefund {
    let mut s = sale();
    s.status = SaleStatus::Cancelled;
    ClaimRefund {
        sale: s,
        sale_key: key(SALE_KEY),
        sealed_bid: bid(20, 4_000),
        user: key(20),
        usdc_mint: key(3),
        user_usdc_account_mint: key(3),
        user_usdc_account_owner: key(20),
        usdc_vault: key(4),
    }
}

#[test]
fn claim_refund_returns_commitment() {
    let mut ctx = refund_ctx();
    assert_eq!(handler_claim_refund(&mut ctx), Ok(4_000));
    assert!(ctx.sealed_bid.claimed);
    assert_eq!(ctx.sealed_bid.refund, 4_000);
    assert_eq!(handler_claim_refund(&mut ctx), Err(custom(ErrorCode::AlreadyClaimed)));
}

#[test]
fn claim_refund_errors() {
    let mut ctx = refund_ctx();
    ctx.user = key(21);
    assert_eq!(handler_claim_refund(&mut ctx), Err(custom(ErrorCode::InvalidParameters)));
    let mut ctx = refund_ctx();
    ctx.sealed_bid.amount = 0;
    assert_eq!(handler_claim_refund(&mut ctx), Err(custom(ErrorCode::InvalidAmount)));
    let mut ctx = refund_ctx();
    ctx.usdc_vault = key(5);
    assert_eq!(handler_claim_refund(&mut ctx), Err(custom(ErrorCode::InvalidParameters)));
    let mut ctx = refund_ctx();
    ctx.sale.status = SaleStatus::Settled;
    assert_eq!(handler_claim_refund(&mut ctx), Err(custom(ErrorCode::SaleNotCancelled)));
    assert!(!ctx.sealed_bid.claimed);
}

#[test]
fn pause_then_unpause() {
    let mut pause = PauseSale { sale: sale(), authority: key(AUTHORITY) };
    assert_eq!(handler_pause_sale(&mut pause), Ok(()));
    assert!(pause.sale.is_paused);
    assert_eq!(handler_pause_sale(&mut pause), Err(custom(ErrorCode::AlreadyProcessed)));
    let mut unpause = UnpauseSale { sale: pause.sale, authority: key(AUTHORITY) };
    assert_eq!(handler_unpause_sale(&mut unpause), Ok(()));
    assert!(!unpause.sale.is_paused);
    assert_eq!(unpause.sale.status, SaleStatus::Active);
    assert_eq!(handler_unpause_sale(&mut unpause), Err(custom(ErrorCode::InvalidSaleStatus)));
}

#[test]
fn pause_errors() {
    let mut pause = PauseSale { sale: sale(), authority: key(2) };
    assert_eq!(handler_pause_sale(&mut pause), Err(ProgramError::ConstraintHasOne));
    pause.authority = key(AUTHORITY);
    pause.sale.status = SaleStatus::Revealing;
    assert_eq!(handler_pause_sale(&mut pause), Err(custom(ErrorCode::InvalidSaleStatus)));
}

#[test]
fn new_proposal_restarts_verification() {
    let mut propose = propose_ctx();
    assert_eq!(handler_propose_settlement(&mut propose, END + 30, 10_000_000, 10_000, None, None), Ok(()));
    let mut verify = VerifyAndAllocate {
        sale: propose.sale,
        sale_key: key(SALE_KEY),
        sealed_bid: revealed_bid(20, 3_000, 50_000_000),
    };
    assert_eq!(handler_verify_and_allocate(&mut verify), Ok(()));
    assert_eq!(verify.sale.running_sum, 3_000);
    assert_eq!(verify.sale.status, SaleStatus::Verifying);
    let mut again = ProposeSettlement { sale: verify.sale, proposer: key(AUTHORITY) };
    assert_eq!(handler_propose_settlement(&mut again, END + 90, 60_000_000, 10_000, None, None), Ok(()));
    assert_eq!(again.sale.running_sum, 0);
    assert_eq!(again.sale.verification_count, 0);
    assert_eq!(again.sale.settlement_nonce, 2);
    let mut reverify = VerifyAndAllocate { sale: again.sale, sale_key: key(SALE_KEY), sealed_bid: verify.sealed_bid };
    assert_eq!(handler_verify_and_allocate(&mut reverify), Ok(()));
    // Below the new clearing FDV: refunded in full.
    assert_eq!(reverify.sealed_bid.allocation, 0);
    assert_eq!(reverify.sealed_bid.refund, 3_000);
    assert_eq!(reverify.sealed_bid.verified_for_nonce, 2);
}

#[test]
fn anyone_may_propose_after_the_authority_window() {
    let mut ctx = propose_ctx();
    ctx.proposer = key(77);
    // The commitment phase ended at END + 10: the authority alone may propose until END + 1810.
    assert_eq!(
        handler_propose_settlement(&mut ctx, END + 1_809, 10_000_000, 10_000, None, None),
        Err(custom(ErrorCode::Unauthorized))
    );
    assert_eq!(handler_propose_settlement(&mut ctx, END + 1_810, 10_000_000, 10_000, None, None), Ok(()));
    assert_eq!(ctx.sale.proposer, Some(key(77)));
    assert_eq!(ctx.sale.status, SaleStatus::Proposed);
}

#[test]
fn batch_verify_failing_late_writes_nothing() {
    let mut accounts = vec![
        BidAccount { key: bid_address(20), owner: key(PROGRAM), lamports: 1_000_000, bid: Ok(revealed_bid(20, 3_000, 50_000_000)) },
        BidAccount { key: bid_address(21), owner: key(PROGRAM), lamports: 1_000_000, bid: Ok(bid(21, 2_000)) },
    ];
    let mut ctx = BatchVerifyAndAllocate {
        sale: proposed_sale(10_000),
        sale_key: key(SALE_KEY),
        program_id: key(PROGRAM),
    };
    assert_eq!(
        handler_batch_verify_and_allocate(&mut ctx, &mut accounts, &vec![0, 1]),
        Err(custom(ErrorCode::BidNotRevealed))
    );
    assert_eq!(accounts[0].bid.as_ref().unwrap().allocation, 0);
    assert_eq!(accounts[0].bid.as_ref().unwrap().verified_for_nonce, 0);
    assert_eq!(ctx.sale.verification_count, 0);
}

#[test]
fn batch_reveal_failing_late_writes_nothing() {
    let (mut ctx, mut accounts, salt_a, _) = reveal_setup();
    let round = ctx.sale.drand_reveal_round;
    let revealed = vec![
        RevealedBidData { user: key(20), max_fdv: 50_000_000, salt: salt_a },
        RevealedBidData { user: key(21), max_fdv: 2_000_000, salt: [0u8; 16] },
    ];
    let r = handler_batch_reveal_bids(&mut ctx, &mut accounts, &vec![0, 1], round, signature(), &revealed, END);
    assert_eq!(r, Err(custom(ErrorCode::HashCommitmentMismatch)));
    assert!(!accounts[0].bid.as_ref().unwrap().bid_revealed);
    assert_eq!(ctx.sale.reveal_count, 0);
}

#[test]
fn batch_verification_matches_single_verifications() {
    let mut s = proposed_sale(5_000);
    s.marginal_user = Some(key(22));
    s.marginal_allocation = Some(700);
    let bids = || vec![
        revealed_bid(20, 3_000, 50_000_000),
        revealed_bid(21, 2_000, 2_000_000),
        revealed_bid(22, 1_000, 10_000_000),
    ];
    let mut accounts: Vec<BidAccount> = bids()
        .into_iter()
        .enumerate()
        .map(|(n, b)| BidAccount { key: bid_address(20 + n as u8), owner: key(PROGRAM), lamports: 1_000_000, bid: Ok(b) })
        .collect();
    let mut batch = BatchVerifyAndAllocate { sale: proposed_sale(5_000), sale_key: key(SALE_KEY), program_id: key(PROGRAM) };
    batch.sale.marginal_user = Some(key(22));
    batch.sale.marginal_allocation = Some(700);
    assert_eq!(handler_batch_verify_and_allocate(&mut batch, &mut accounts, &vec![0, 1, 2]), Ok(()));

    let mut sale_state = s;
    for (n, b) in bids().into_iter().enumerate() {
        let mut single = VerifyAndAllocate { sale: sale_state, sale_key: key(SALE_KEY), sealed_bid: b };
        assert_eq!(handler_verify_and_allocate(&mut single), Ok(()));
        let batched = accounts[n].bid.as_ref().unwrap();
        assert_eq!(
            (batched.allocation, batched.refund, batched.tokens, batched.cleared, batched.is_marginal),
            (single.sealed_bid.allocation, single.sealed_bid.refund, single.sealed_bid.tokens, single.sealed_bid.cleared, single.sealed_bid.is_marginal)
        );
        sale_state = single.sale;
    }
    assert_eq!(batch.sale.running_sum, sale_state.running_sum);
    assert_eq!(batch.sale.running_sum, 1_500 + 700);
    assert_eq!(batch.sale.verification_count, sale_state.verification_count);
    assert_eq!(batch.sale.marginal_user_verified, sale_state.marginal_user_verified);
    assert_eq!(batch.sale.status, sale_state.status);
}

#[test]
fn a_revealed_bid_cannot_be_revealed_again() {
    let (mut ctx, mut accounts, salt_a, _) = reveal_setup();
    let round = ctx.sale.drand_reveal_round;
    let first = vec![RevealedBidData { user: key(20), max_fdv: 50_000_000, salt: salt_a }];
    assert_eq!(handler_batch_reveal_bids(&mut ctx, &mut accounts, &vec![0], round, signature(), &first, END), Ok(()));
    let second = vec![RevealedBidData { user: key(20), max_fdv: 60_000_000, salt: salt_a }];
    let r = handler_batch_reveal_bids(&mut ctx, &mut accounts, &vec![0], round, signature(), &second, END);
    assert_eq!(r, Err(custom(ErrorCode::BidAlreadyRevealed)));
    assert_eq!(accounts[0].bid.as_ref().unwrap().max_fdv_plaintext, Some(50_000_000));
}

#[test]
fn batch_verify_reads_accounts_as_the_framework_does() {
    let mut ctx = BatchVerifyAndAllocate {
        sale: proposed_sale(10_000),
        sale_key: key(SALE_KEY),
        program_id: key(PROGRAM),
    };
    let mut accounts = vec![BidAccount {
        key: bid_address(20),
        owner: key(PROGRAM),
        lamports: 1_000_000,
        bid: Err(AccountDataError::DiscriminatorMismatch),
    }];
    assert_eq!(
        handler_batch_verify_and_allocate(&mut ctx, &mut accounts, &vec![0]),
        Err(ProgramError::AccountDiscriminatorMismatch)
    );
    accounts[0].owner = key(3);
    assert_eq!(
        handler_batch_verify_and_allocate(&mut ctx, &mut accounts, &vec![0]),
        Err(custom(ErrorCode::InvalidParameters))
    );
}

#[test]
fn repeated_account_in_a_batch_is_already_verified() {
    let mut accounts = vec![
        BidAccount { key: bid_address(20), owner: key(PROGRAM), lamports: 1, bid: Ok(revealed_bid(20, 3_000, 50_000_000)) },
        BidAccount { key: bid_address(21), owner: key(PROGRAM), lamports: 1, bid: Ok(revealed_bid(21, 2_000, 2_000_000)) },
    ];
    let mut ctx = BatchVerifyAndAllocate { sale: proposed_sale(10_000), sale_key: key(SALE_KEY), program_id: key(PROGRAM) };
    assert_eq!(
        handler_batch_verify_and_allocate(&mut ctx, &mut accounts, &vec![0, 1, 0]),
        Err(custom(ErrorCode::AlreadyVerified))
    );
    // As a second single verification of the same bid.
    let mut single = VerifyAndAllocate { sale: proposed_sale(10_000), sale_key: key(SALE_KEY), sealed_bid: revealed_bid(20, 3_000, 50_000_000) };
    assert_eq!(handler_verify_and_allocate(&mut single), Ok(()));
    assert_eq!(handler_verify_and_allocate(&mut single), Err(custom(ErrorCode::AlreadyVerified)));
}
