pub mod errors;
pub mod events;
pub mod instructions;
pub mod state;
