pub mod bid_batch;
pub mod circuits;
pub mod errors;
pub mod instructions;
pub mod state;
