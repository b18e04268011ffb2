//! Proposal lifecycle phases of an on-chain governance program, derived from
//! the proposal's on-chain state and the program's configured durations.

pub mod constants;
pub mod laws;
pub mod phase;
