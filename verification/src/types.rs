//! The request and response records of the governance engine.

use vstd::prelude::*;

verus! {

/// A single vote choice, matched exhaustively wherever a tally is updated.
#[derive(Clone, Copy, Debug, PartialEq, Eq, Structural)]
pub enum Vote {
    Yes,
    No,
    Abstain,
}

/// The lifecycle status of a proposal. `Open` is the sole initial state;
/// `Closed` and `Rejected` are terminal.
#[derive(Clone, Copy, Debug, PartialEq, Eq, Structural)]
pub enum Status {
    Open,
    Closed,
    Rejected,
}

/// Request to initialize the engine. Carries no data: the sender becomes the
/// owner and the vote threshold takes its default.
#[derive(Clone, Copy, Debug, PartialEq, Eq, Structural)]
pub struct InstantiateMsg {}

/// Request to create a proposal titled `title`, superseding any prior one.
#[derive(Clone, Debug, PartialEq, Eq)]
pub struct ProposeMsg {
    pub title: String,
}

/// A state-changing request.
#[derive(Clone, Debug, PartialEq, Eq)]
pub enum ExecuteMsg {
    /// Cast a vote of the given choice and weight on the current proposal.
    Vote { vote: Vote, weight: u128 },
    /// Create a new proposal.
    Propose(ProposeMsg),
    /// Resolve the current proposal against the configured threshold.
    CloseVote {},
}

/// A read-only request.
#[derive(Clone, Debug, PartialEq, Eq)]
pub enum QueryMsg {
    /// Ask for the configuration record.
    Config {},
    /// Ask for a voter's registry entry (not populated by this engine).
    GetVoter { address: String },
    /// Ask for the proposal status (not populated by this engine).
    GetStatus {},
    /// Ask for the current proposal.
    GetPropose {},
}

/// Request to migrate the engine. Carries no data and changes nothing.
#[derive(Clone, Copy, Debug, PartialEq, Eq, Structural)]
pub struct MigrateMsg {}

/// Answer to [`QueryMsg::Config`].
#[derive(Clone, Debug, PartialEq, Eq)]
pub struct ConfigResponse {
    pub owner: String,
}

/// Answer to [`QueryMsg::GetPropose`].
#[derive(Clone, Debug, PartialEq, Eq)]
pub struct ProposalResponse {
    pub title: String,
    pub proposer: String,
    pub min_votes: u128,
    pub total_votes: u128,
    pub status: Status,
}

/// Outcome record of a successful state-changing request.
#[derive(Clone, Debug, PartialEq, Eq)]
pub enum ExecuteResponse {
    /// A proposal was created.
    Proposed { title: String, proposer: String, min_votes: u128 },
    /// A vote was recorded: who voted, the running total, and the registry
    /// flag for that voter.
    Voted { voter: String, total: u128, vote_status: bool },
    /// The proposal was resolved; an empty acknowledgement.
    Closed {},
}

/// Answer to a [`QueryMsg`].
#[derive(Clone, Debug, PartialEq, Eq)]
pub enum QueryAnswer {
    Config(ConfigResponse),
    Proposal(ProposalResponse),
    /// Answer to the request kinds this engine does not populate.
    Empty {},
}

} // verus!
