//! The state-changing operations of the governance engine: propose, vote,
//! and close. Each loads the records it needs from the store, validates the
//! request against the state-machine rules, and either commits the whole
//! mutation or fails leaving the store untouched.

use vstd::prelude::*;

use crate::errors::ContractError;
use crate::state::{read_config, store_proposal, Proposal, Store};
use crate::types::{ExecuteResponse, Status, Vote};

verus! {

/// What a `propose` request does: with no configuration stored it fails with
/// `Uninitialized` and changes nothing; otherwise it overwrites the proposal
/// slot with a fresh open proposal carrying the configured threshold and
/// echoes title, proposer, and threshold.
pub open spec fn spec_execute_propose(
    pre: Store,
    post: Store,
    sender: String,
    title: String,
    r: Result<ExecuteResponse, ContractError>,
) -> bool {
    match pre.config {
        None => r == Err::<ExecuteResponse, ContractError>(ContractError::Uninitialized) && post
            == pre,
        Some(cfg) => {
            &&& r == Ok::<ExecuteResponse, ContractError>(
                ExecuteResponse::Proposed {
                    title,
                    proposer: sender,
                    min_votes: cfg.required_votes,
                },
            )
            &&& post.config == pre.config
            &&& match post.proposal {
                Some(p) => {
                    &&& p.proposer == sender
                    &&& p.title == title
                    &&& p.min_votes == cfg.required_votes
                    &&& p.votes.spec_total() == 0
                    &&& p.voters.voters@.len() == 0
                    &&& !p.whitelist
                    &&& p.status is Open
                },
                None => false,
            }
        },
    }
}

/// What a `vote` request does: with no proposal stored it fails with
/// `NoActiveProposal`; a proposal that rejects the vote (see
/// [`Proposal::spec_vote_error`]) reports that error; in both cases nothing
/// changes. An accepted vote updates tally and registry as
/// [`Proposal::spec_voted_proposal`] says and reports the voter, the running
/// total, and the registry flag.
pub open spec fn spec_execute_vote(
    pre: Store,
    post: Store,
    sender: String,
    vote: Vote,
    weight: u128,
    r: Result<ExecuteResponse, ContractError>,
) -> bool {
    match pre.proposal {
        None => r == Err::<ExecuteResponse, ContractError>(ContractError::NoActiveProposal) && post
            == pre,
        Some(p) => match p.spec_vote_error(sender@, weight) {
            Some(e) => r == Err::<ExecuteResponse, ContractError>(e) && post == pre,
            None => {
                &&& post.config == pre.config
                &&& match post.proposal {
                    Some(q) => {
                        &&& Proposal::spec_voted_proposal(p, q, sender@, vote, weight)
                        &&& r == Ok::<ExecuteResponse, ContractError>(
                            ExecuteResponse::Voted {
                                voter: sender,
                                total: ((p.votes.spec_total() + weight) as u128),
                                vote_status: true,
                            },
                        )
                    },
                    None => false,
                }
            },
        },
    }
}

/// What a `close` request does: with no proposal stored it fails with
/// `NoActiveProposal`, with no configuration with `Uninitialized`, on a
/// terminal proposal with `ProposalNotOpen` — in each case changing nothing.
/// Otherwise the proposal resolves to `Closed` when its total strictly
/// exceeds the configured threshold and to `Rejected` when the total is less
/// than or equal to it, and the call acknowledges with an empty record.
pub open spec fn spec_execute_close(
    pre: Store,
    post: Store,
    r: Result<ExecuteResponse, ContractError>,
) -> bool {
    match pre.proposal {
        None => r == Err::<ExecuteResponse, ContractError>(ContractError::NoActiveProposal) && post
            == pre,
        Some(p) => match pre.config {
            None => r == Err::<ExecuteResponse, ContractError>(ContractError::Uninitialized)
                && post == pre,
            Some(cfg) => {
                if !(p.status is Open) {
                    r == Err::<ExecuteResponse, ContractError>(ContractError::ProposalNotOpen)
                        && post == pre
                } else {
                    &&& r == Ok::<ExecuteResponse, ContractError>(ExecuteResponse::Closed {})
                    &&& post.config == pre.config
                    &&& post.proposal == Some(
                        Proposal {
                            status: if p.votes.spec_total() <= cfg.required_votes {
                                Status::Rejected
                            } else {
                                Status::Closed
                            },
                            ..p
                        },
                    )
                }
            },
        },
    }
}

/// Creates a new proposal titled `title` with `sender` as proposer,
/// superseding whatever proposal was stored before.
pub fn execute_propose(store: &mut Store, sender: String, title: String) -> (r: Result<
    ExecuteResponse,
    ContractError,
>)
    requires
        old(store).inv(),
    ensures
        final(store).inv(),
        spec_execute_propose(*old(store), *final(store), sender, title, r),
{
    let prop = {
        let cfg = match read_config(store) {
            Ok(c) => c,
            Err(e) => {
                return Err(e);
            },
        };
        Proposal::create(sender, title, cfg)
    };
    let resp = ExecuteResponse::Proposed {
        title: prop.title.clone(),
        proposer: prop.proposer.clone(),
        min_votes: prop.min_votes,
    };
    store_proposal(store, prop);
    Ok(resp)
}

/// Casts a vote of `weight` for `vote` by `sender` on the current proposal.
pub fn execute_vote(store: &mut Store, sender: String, vote: Vote, weight: u128) -> (r: Result<
    ExecuteResponse,
    ContractError,
>)
    requires
        old(store).inv(),
    ensures
        final(store).inv(),
        spec_execute_vote(*old(store), *final(store), sender, vote, weight, r),
{
    match &mut store.proposal {
        None => Err(ContractError::NoActiveProposal),
        Some(prop) => {
            match prop.accept_vote(&sender, vote, weight) {
                Ok(()) => {},
                Err(e) => {
                    return Err(e);
                },
            }
            let total = prop.votes.total();
            Ok(ExecuteResponse::Voted { voter: sender, total, vote_status: true })
        },
    }
}

/// Resolves the current proposal against the configured threshold.
pub fn execute_vote_status(store: &mut Store) -> (r: Result<ExecuteResponse, ContractError>)
    requires
        old(store).inv(),
    ensures
        final(store).inv(),
        spec_execute_close(*old(store), *final(store), r),
{
    if store.proposal.is_none() {
        return Err(ContractError::NoActiveProposal);
    }
    let cfg = match &store.config {
        Some(c) => c,
        None => {
            return Err(ContractError::Uninitialized);
        },
    };
    match &mut store.proposal {
        None => Err(ContractError::NoActiveProposal),
        Some(prop) => {
            match prop.close(cfg) {
                Ok(()) => Ok(ExecuteResponse::Closed {}),
                Err(e) => Err(e),
            }
        },
    }
}

} // verus!
