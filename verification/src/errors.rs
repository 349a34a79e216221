//! The error taxonomy of the governance engine.

use vstd::prelude::*;

verus! {

/// Every failure a governance operation can report.
///
/// State-violation errors (`ProposalNotOpen`, `AlreadyVoted`,
/// `VoterIneligible`) are raised before any write, so a failed request leaves
/// the store unchanged. Not-found errors (`Uninitialized`, `NoActiveProposal`)
/// come from read paths when a record does not exist yet.
/// `ArithmeticOverflow` is raised when accepting a vote would push the tally
/// total past the numeric domain.
#[derive(Clone, Copy, Debug, PartialEq, Eq, Structural)]
pub enum ContractError {
    /// The proposal has already been resolved to a terminal status.
    ProposalNotOpen,
    /// The identity has already voted on the current proposal.
    AlreadyVoted,
    /// Whitelisting is enabled and the identity is not whitelisted.
    VoterIneligible,
    /// No configuration record has been stored yet.
    Uninitialized,
    /// No proposal record has been stored yet.
    NoActiveProposal,
    /// Recording the vote would overflow the tally total.
    ArithmeticOverflow,
}

} // verus!
