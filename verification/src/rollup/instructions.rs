pub mod allocate_batch;
pub mod claim_allocation;
pub mod close_and_compute;
pub mod refund_sale;
pub mod submit_bid;
pub mod undelegate_batch;
pub mod update_bid;
pub mod withdraw_unsold;
