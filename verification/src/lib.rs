//! Sealed-bid, uniform-price token sales: the settlement logic of three auction programs
//! (a timelock auction whose bids are revealed with a drand beacon, an auction whose bids
//! stay encrypted and are settled by an MPC cluster, and an auction whose bids live in an
//! ephemeral rollup), with the arithmetic and hashing they share.
use vstd::prelude::*;

pub mod hashing;
pub mod math;
pub mod merkle;
pub mod mpc;
pub mod program_error;
pub mod pubkey;
pub mod rollup;
pub mod timelock;
