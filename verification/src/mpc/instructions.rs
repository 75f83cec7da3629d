pub mod check_bid_cleared;
pub mod commit;
pub mod enable_claims;
pub mod queue_init_state;
pub mod queue_submit_bid;
pub mod receive_settlement;
pub mod refund_sale;
pub mod trigger_settlement;
