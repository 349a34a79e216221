//! A single-proposal governance voting engine.
//!
//! The library accepts one proposal at a time, collects weighted votes from
//! identities, tallies them against a configured threshold, and resolves the
//! proposal to a terminal outcome (`Closed` when the total strictly exceeds
//! the threshold, `Rejected` otherwise). All state lives in a [`state::Store`]
//! value handed into every operation, so a host can load it from and persist
//! it to whatever storage it owns.

pub mod errors;
pub mod types;
pub mod state;
pub mod execute;
pub mod queries;
pub mod contract;
