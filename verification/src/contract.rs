//! The dispatch surface of the governance engine: one entry per request
//! kind. A host resolves the caller's identity, hands the store in, and
//! persists it afterwards.

use vstd::prelude::*;

use crate::errors::ContractError;
use crate::execute::{
    execute_propose, execute_vote, execute_vote_status, spec_execute_close, spec_execute_propose,
    spec_execute_vote,
};
use crate::queries::{query_config, query_propose, spec_query_config, spec_query_propose};
use crate::state::{store_config, Config, Store, DEFAULT_REQUIRED_VOTES};
use crate::types::{
    ExecuteMsg, ExecuteResponse, InstantiateMsg, MigrateMsg, ProposeMsg, QueryAnswer, QueryMsg,
};

verus! {

/// Initializes the deployment: the sender becomes the owner and the vote
/// threshold takes its default. Returns the stored configuration as an
/// echo. The proposal slot is left alone.
pub fn instantiate(store: &mut Store, sender: String, _msg: InstantiateMsg) -> (r: Config)
    requires
        old(store).inv(),
    ensures
        final(store).inv(),
        r == (Config { owner: sender, required_votes: DEFAULT_REQUIRED_VOTES }),
        final(store).config == Some(r),
        final(store).proposal == old(store).proposal,
{
    let config = Config { owner: sender.clone(), required_votes: DEFAULT_REQUIRED_VOTES };
    store_config(store, Config { owner: sender, required_votes: DEFAULT_REQUIRED_VOTES });
    config
}

/// Dispatches a state-changing request to its handler: `Vote` to
/// [`execute_vote`], `Propose` to [`execute_propose`], and `CloseVote` to
/// [`execute_vote_status`].
pub fn execute(store: &mut Store, sender: String, msg: ExecuteMsg) -> (r: Result<
    ExecuteResponse,
    ContractError,
>)
    requires
        old(store).inv(),
    ensures
        final(store).inv(),
        match msg {
            ExecuteMsg::Vote { vote, weight } => spec_execute_vote(
                *old(store),
                *final(store),
                sender,
                vote,
                weight,
                r,
            ),
            ExecuteMsg::Propose(ProposeMsg { title }) => spec_execute_propose(
                *old(store),
                *final(store),
                sender,
                title,
                r,
            ),
            ExecuteMsg::CloseVote {  } => spec_execute_close(*old(store), *final(store), r),
        },
{
    match msg {
        ExecuteMsg::Vote { vote, weight } => execute_vote(store, sender, vote, weight),
        ExecuteMsg::Propose(ProposeMsg { title }) => execute_propose(store, sender, title),
        ExecuteMsg::CloseVote {  } => execute_vote_status(store),
    }
}

/// Dispatches a read-only request: `Config` to [`query_config`],
/// `GetPropose` to [`query_propose`]; the request kinds this engine does not
/// populate are answered with an empty record.
pub fn query(store: &Store, msg: QueryMsg) -> (r: Result<QueryAnswer, ContractError>)
    requires
        store.inv(),
    ensures
        match msg {
            QueryMsg::Config {  } => match r {
                Ok(a) => a matches QueryAnswer::Config(c) && spec_query_config(
                    *store,
                    Ok::<_, ContractError>(c),
                ),
                Err(e) => spec_query_config(*store, Err::<crate::types::ConfigResponse, _>(e)),
            },
            QueryMsg::GetPropose {  } => match r {
                Ok(a) => a matches QueryAnswer::Proposal(p) && spec_query_propose(
                    *store,
                    Ok::<_, ContractError>(p),
                ),
                Err(e) => spec_query_propose(*store, Err::<crate::types::ProposalResponse, _>(e)),
            },
            QueryMsg::GetVoter { .. } | QueryMsg::GetStatus {  } => r == Ok::<
                QueryAnswer,
                ContractError,
            >(QueryAnswer::Empty {}),
        },
{
    match msg {
        QueryMsg::Config {  } => match query_config(store) {
            Ok(c) => Ok(QueryAnswer::Config(c)),
            Err(e) => Err(e),
        },
        QueryMsg::GetVoter { .. } => Ok(QueryAnswer::Empty {}),
        QueryMsg::GetStatus {  } => Ok(QueryAnswer::Empty {}),
        QueryMsg::GetPropose {  } => match query_propose(store) {
            Ok(p) => Ok(QueryAnswer::Proposal(p)),
            Err(e) => Err(e),
        },
    }
}

/// Migration is a recognized request that changes nothing.
pub fn migrate(store: &mut Store, _msg: MigrateMsg)
    ensures
        *final(store) == *old(store),
{
}

} // verus!
