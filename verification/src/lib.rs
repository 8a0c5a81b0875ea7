//! Verified core of an escrow program: the escrow account model, the checks
//! that guard each instruction, and the state machine that moves an escrow
//! from funding to payout.
pub mod constants;
pub mod keys;
pub mod error;
pub mod access;
pub mod helper;
pub mod data;
pub mod cpi;
pub mod model;
pub mod program;
pub mod laws;
