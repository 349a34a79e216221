//! The read-only operations of the governance engine. They project the
//! stored records into response records and never mutate the store.

use vstd::prelude::*;

use crate::errors::ContractError;
use crate::state::{read_config, read_proposal, Store};
use crate::types::{ConfigResponse, ProposalResponse};

verus! {

/// What a configuration query returns: the owner of the stored
/// configuration, or `Uninitialized` when none has been stored.
pub open spec fn spec_query_config(store: Store, r: Result<ConfigResponse, ContractError>) -> bool {
    match store.config {
        None => r == Err::<ConfigResponse, ContractError>(ContractError::Uninitialized),
        Some(cfg) => r == Ok::<ConfigResponse, ContractError>(
            ConfigResponse { owner: cfg.owner },
        ),
    }
}

/// What a proposal query returns: title, proposer, the configured vote
/// threshold, the running tally total, and the status of the stored
/// proposal; `Uninitialized` when no configuration has been stored, and
/// `NoActiveProposal` when no proposal has.
pub open spec fn spec_query_propose(
    store: Store,
    r: Result<ProposalResponse, ContractError>,
) -> bool {
    match store.config {
        None => r == Err::<ProposalResponse, ContractError>(ContractError::Uninitialized),
        Some(cfg) => match store.proposal {
            None => r == Err::<ProposalResponse, ContractError>(ContractError::NoActiveProposal),
            Some(p) => r == Ok::<ProposalResponse, ContractError>(
                ProposalResponse {
                    title: p.title,
                    proposer: p.proposer,
                    min_votes: cfg.required_votes,
                    total_votes: (p.votes.spec_total() as u128),
                    status: p.status,
                },
            ),
        },
    }
}

/// Projects the stored configuration into a [`ConfigResponse`].
pub fn query_config(store: &Store) -> (r: Result<ConfigResponse, ContractError>)
    ensures
        spec_query_config(*store, r),
{
    match read_config(store) {
        Ok(cfg) => Ok(ConfigResponse { owner: cfg.owner.clone() }),
        Err(e) => Err(e),
    }
}

/// Projects the stored proposal into a [`ProposalResponse`].
pub fn query_propose(store: &Store) -> (r: Result<ProposalResponse, ContractError>)
    requires
        store.inv(),
    ensures
        spec_query_propose(*store, r),
{
    let min_votes = match read_config(store) {
        Ok(cfg) => cfg.required_votes,
        Err(e) => {
            return Err(e);
        },
    };
    match read_proposal(store) {
        Ok(p) => Ok(
            ProposalResponse {
                title: p.title.clone(),
                proposer: p.proposer.clone(),
                min_votes,
                total_votes: p.votes.total(),
                status: p.status,
            },
        ),
        Err(e) => Err(e),
    }
}

} // verus!
