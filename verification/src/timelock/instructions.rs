pub mod batch_reveal_bids;
pub mod batch_verify_and_allocate;
pub mod cancel_sale;
pub mod claim_refund;
pub mod close_commitment_window;
pub mod finalize_settlement;
pub mod fund_sale;
pub mod initialize_sale;
pub mod pause_sale;
pub mod propose_settlement;
pub mod verify_and_allocate;
pub mod withdraw_raised;
