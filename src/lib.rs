//! A small polling engine: polls are created with dense, never reused ids,
//! receive yes/no votes, and report their tallies.
pub mod contract;
pub mod error;
pub mod msg;
pub mod proofs;
pub mod state;
