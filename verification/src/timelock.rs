pub mod drand;
pub mod errors;
pub mod instructions;
pub mod state;
