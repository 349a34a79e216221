//! End-to-end tests of the dispatch surface, driving the engine through the
//! same request flows a host would.

use governance::contract::{execute, instantiate, migrate, query};
use governance::errors::ContractError;
use governance::state::Store;
use governance::types::{
    ConfigResponse, ExecuteMsg, ExecuteResponse, InstantiateMsg, MigrateMsg, ProposalResponse,
    ProposeMsg, QueryAnswer, QueryMsg, Status, Vote,
};

fn config_of(store: &Store) -> ConfigResponse {
    match query(store, QueryMsg::Config {}).unwrap() {
        QueryAnswer::Config(c) => c,
        other => panic!("expected a config answer, got {:?}", other),
    }
}

fn proposal_of(store: &Store) -> ProposalResponse {
    match query(store, QueryMsg::GetPropose {}).unwrap() {
        QueryAnswer::Proposal(p) => p,
        other => panic!("expected a proposal answer, got {:?}", other),
    }
}

#[test]
fn proper_initialization() {
    let mut store = Store::new();

    let msg = InstantiateMsg {};
    let res = instantiate(&mut store, "creator".to_string(), msg);
    assert_eq!(10u128, res.required_votes);

    let value = config_of(&store);
    assert_eq!("creator", value.owner);
}

#[test]
fn proper_create_proposal() {
    let mut store = Store::new();

    let msg = InstantiateMsg {};
    let res = instantiate(&mut store, "creator".to_string(), msg);
    assert_eq!("creator", res.owner);
    let msg = ExecuteMsg::Propose(ProposeMsg {
        title: "New proposal".to_string(),
    });

    let res = execute(&mut store, "creator".to_string(), msg);
    assert!(res.is_ok());
    let value = proposal_of(&store);
    assert_eq!("New proposal", value.title);
    assert_eq!("creator", value.proposer);
    assert_eq!(10u128, value.min_votes);
}

#[test]
fn execute_vote() {
    let mut store = Store::new();

    let msg = InstantiateMsg {};
    let res = instantiate(&mut store, "creator".to_string(), msg);
    assert_eq!("creator", res.owner);
    let msg = ExecuteMsg::Propose(ProposeMsg {
        title: "Proposal for getting a votes".to_string(),
    });
    let res = execute(&mut store, "creator".to_string(), msg);
    assert!(res.is_ok());
    let msg = ExecuteMsg::Vote {
        vote: Vote::Yes,
        weight: 120u128,
    };
    let res = execute(&mut store, "creator".to_string(), msg);
    assert!(res.is_ok());
    let value = proposal_of(&store);
    assert_eq!(10u128, value.min_votes);
    assert_eq!(120u128, value.total_votes);
}

#[test]
fn query_proposal_after_propose() {
    // Initialize, propose "New proposal", and read it back: zero votes, open.
    let mut store = Store::new();
    instantiate(&mut store, "creator".to_string(), InstantiateMsg {});
    let res = execute(
        &mut store,
        "creator".to_string(),
        ExecuteMsg::Propose(ProposeMsg {
            title: "New proposal".to_string(),
        }),
    )
    .unwrap();
    assert_eq!(
        res,
        ExecuteResponse::Proposed {
            title: "New proposal".to_string(),
            proposer: "creator".to_string(),
            min_votes: 10,
        }
    );
    let p = proposal_of(&store);
    assert_eq!("New proposal", p.title);
    assert_eq!(10u128, p.min_votes);
    assert_eq!(0u128, p.total_votes);
    assert_eq!(Status::Open, p.status);
}

#[test]
fn vote_from_proposer_counts() {
    // After proposing, a yes vote of weight 120 from the proposer brings the
    // running total to 120 and leaves the proposal open.
    let mut store = Store::new();
    instantiate(&mut store, "creator".to_string(), InstantiateMsg {});
    execute(
        &mut store,
        "creator".to_string(),
        ExecuteMsg::Propose(ProposeMsg {
            title: "New proposal".to_string(),
        }),
    )
    .unwrap();
    let res = execute(
        &mut store,
        "creator".to_string(),
        ExecuteMsg::Vote {
            vote: Vote::Yes,
            weight: 120,
        },
    )
    .unwrap();
    assert_eq!(
        res,
        ExecuteResponse::Voted {
            voter: "creator".to_string(),
            total: 120,
            vote_status: true,
        }
    );
    let p = proposal_of(&store);
    assert_eq!(120u128, p.total_votes);
    assert_eq!(Status::Open, p.status);
}

#[test]
fn two_voters_then_close_passes() {
    // Votes of weight 10 and 9 from different identities add up to 19, which
    // strictly exceeds the threshold of 10, so closing approves.
    let mut store = Store::new();
    instantiate(&mut store, "creator".to_string(), InstantiateMsg {});
    execute(
        &mut store,
        "creator".to_string(),
        ExecuteMsg::Propose(ProposeMsg {
            title: "X".to_string(),
        }),
    )
    .unwrap();
    execute(
        &mut store,
        "alice".to_string(),
        ExecuteMsg::Vote {
            vote: Vote::Yes,
            weight: 10,
        },
    )
    .unwrap();
    execute(
        &mut store,
        "bob".to_string(),
        ExecuteMsg::Vote {
            vote: Vote::Yes,
            weight: 9,
        },
    )
    .unwrap();
    assert_eq!(19u128, proposal_of(&store).total_votes);
    let res = execute(&mut store, "creator".to_string(), ExecuteMsg::CloseVote {}).unwrap();
    assert_eq!(res, ExecuteResponse::Closed {});
    assert_eq!(Status::Closed, proposal_of(&store).status);
}

#[test]
fn single_low_vote_then_close_rejects() {
    // One vote of weight 9 stays at or below the threshold of 10, so closing
    // rejects.
    let mut store = Store::new();
    instantiate(&mut store, "creator".to_string(), InstantiateMsg {});
    execute(
        &mut store,
        "creator".to_string(),
        ExecuteMsg::Propose(ProposeMsg {
            title: "X".to_string(),
        }),
    )
    .unwrap();
    execute(
        &mut store,
        "alice".to_string(),
        ExecuteMsg::Vote {
            vote: Vote::Yes,
            weight: 9,
        },
    )
    .unwrap();
    execute(&mut store, "creator".to_string(), ExecuteMsg::CloseVote {}).unwrap();
    assert_eq!(Status::Rejected, proposal_of(&store).status);
}

#[test]
fn second_vote_from_same_identity_fails() {
    // The second vote from the same identity fails with AlreadyVoted and the
    // stored proposal is exactly what it was after the first vote.
    let mut store = Store::new();
    instantiate(&mut store, "creator".to_string(), InstantiateMsg {});
    execute(
        &mut store,
        "creator".to_string(),
        ExecuteMsg::Propose(ProposeMsg {
            title: "X".to_string(),
        }),
    )
    .unwrap();
    execute(
        &mut store,
        "alice".to_string(),
        ExecuteMsg::Vote {
            vote: Vote::Yes,
            weight: 10,
        },
    )
    .unwrap();
    let snapshot = store.clone();
    let res = execute(
        &mut store,
        "alice".to_string(),
        ExecuteMsg::Vote {
            vote: Vote::No,
            weight: 9,
        },
    );
    assert_eq!(res, Err(ContractError::AlreadyVoted));
    assert_eq!(snapshot, store);
    assert_eq!(10u128, proposal_of(&store).total_votes);
}

#[test]
fn unwhitelisted_voter_is_rejected() {
    // With whitelisting enabled, a voter that is not whitelisted fails with
    // VoterIneligible and the tally stays at zero.
    let mut store = Store::new();
    instantiate(&mut store, "creator".to_string(), InstantiateMsg {});
    execute(
        &mut store,
        "creator".to_string(),
        ExecuteMsg::Propose(ProposeMsg {
            title: "X".to_string(),
        }),
    )
    .unwrap();
    store.proposal.as_mut().unwrap().enable_whitelist();
    let res = execute(
        &mut store,
        "mallory".to_string(),
        ExecuteMsg::Vote {
            vote: Vote::Yes,
            weight: 5,
        },
    );
    assert_eq!(res, Err(ContractError::VoterIneligible));
    assert_eq!(0u128, proposal_of(&store).total_votes);
}

#[test]
fn whitelisted_voter_is_accepted() {
    let mut store = Store::new();
    instantiate(&mut store, "creator".to_string(), InstantiateMsg {});
    execute(
        &mut store,
        "creator".to_string(),
        ExecuteMsg::Propose(ProposeMsg {
            title: "X".to_string(),
        }),
    )
    .unwrap();
    {
        let prop = store.proposal.as_mut().unwrap();
        prop.enable_whitelist();
        prop.whitelist_voter(&"alice".to_string());
    }
    let res = execute(
        &mut store,
        "alice".to_string(),
        ExecuteMsg::Vote {
            vote: Vote::Abstain,
            weight: 7,
        },
    );
    assert!(res.is_ok());
    assert_eq!(7u128, proposal_of(&store).total_votes);
}

#[test]
fn close_is_idempotent_on_failure() {
    // Closing a terminal proposal always fails with ProposalNotOpen and never
    // changes the status, whichever terminal status it reached.
    for weight in [9u128, 11u128] {
        let mut store = Store::new();
        instantiate(&mut store, "creator".to_string(), InstantiateMsg {});
        execute(
            &mut store,
            "creator".to_string(),
            ExecuteMsg::Propose(ProposeMsg {
                title: "X".to_string(),
            }),
        )
        .unwrap();
        execute(
            &mut store,
            "alice".to_string(),
            ExecuteMsg::Vote {
                vote: Vote::Yes,
                weight,
            },
        )
        .unwrap();
        execute(&mut store, "creator".to_string(), ExecuteMsg::CloseVote {}).unwrap();
        let terminal = proposal_of(&store).status;
        let snapshot = store.clone();
        let res = execute(&mut store, "creator".to_string(), ExecuteMsg::CloseVote {});
        assert_eq!(res, Err(ContractError::ProposalNotOpen));
        assert_eq!(snapshot, store);
        assert_eq!(terminal, proposal_of(&store).status);
    }
}

#[test]
fn threshold_boundary() {
    // With required_votes = 10, a total of exactly 10 rejects and a total of
    // 11 approves.
    for (weight, expected) in [(10u128, Status::Rejected), (11u128, Status::Closed)] {
        let mut store = Store::new();
        instantiate(&mut store, "creator".to_string(), InstantiateMsg {});
        execute(
            &mut store,
            "creator".to_string(),
            ExecuteMsg::Propose(ProposeMsg {
                title: "X".to_string(),
            }),
        )
        .unwrap();
        execute(
            &mut store,
            "alice".to_string(),
            ExecuteMsg::Vote {
                vote: Vote::No,
                weight,
            },
        )
        .unwrap();
        execute(&mut store, "creator".to_string(), ExecuteMsg::CloseVote {}).unwrap();
        assert_eq!(expected, proposal_of(&store).status);
    }
}

#[test]
fn vote_on_closed_proposal_fails() {
    let mut store = Store::new();
    instantiate(&mut store, "creator".to_string(), InstantiateMsg {});
    execute(
        &mut store,
        "creator".to_string(),
        ExecuteMsg::Propose(ProposeMsg {
            title: "X".to_string(),
        }),
    )
    .unwrap();
    execute(&mut store, "creator".to_string(), ExecuteMsg::CloseVote {}).unwrap();
    let res = execute(
        &mut store,
        "alice".to_string(),
        ExecuteMsg::Vote {
            vote: Vote::Yes,
            weight: 1,
        },
    );
    assert_eq!(res, Err(ContractError::ProposalNotOpen));
}

#[test]
fn overflowing_vote_fails() {
    // A second weight that would push the combined total past u128::MAX is
    // rejected with ArithmeticOverflow and the tally keeps its value.
    let mut store = Store::new();
    instantiate(&mut store, "creator".to_string(), InstantiateMsg {});
    execute(
        &mut store,
        "creator".to_string(),
        ExecuteMsg::Propose(ProposeMsg {
            title: "X".to_string(),
        }),
    )
    .unwrap();
    execute(
        &mut store,
        "alice".to_string(),
        ExecuteMsg::Vote {
            vote: Vote::Yes,
            weight: u128::MAX,
        },
    )
    .unwrap();
    let res = execute(
        &mut store,
        "bob".to_string(),
        ExecuteMsg::Vote {
            vote: Vote::No,
            weight: 1,
        },
    );
    assert_eq!(res, Err(ContractError::ArithmeticOverflow));
    assert_eq!(u128::MAX, proposal_of(&store).total_votes);
}

#[test]
fn operations_before_initialization_fail() {
    let mut store = Store::new();
    assert_eq!(
        query(&store, QueryMsg::Config {}),
        Err(ContractError::Uninitialized)
    );
    assert_eq!(
        query(&store, QueryMsg::GetPropose {}),
        Err(ContractError::Uninitialized)
    );
    let res = execute(
        &mut store,
        "creator".to_string(),
        ExecuteMsg::Propose(ProposeMsg {
            title: "X".to_string(),
        }),
    );
    assert_eq!(res, Err(ContractError::Uninitialized));
}

#[test]
fn operations_without_proposal_fail() {
    let mut store = Store::new();
    instantiate(&mut store, "creator".to_string(), InstantiateMsg {});
    assert_eq!(
        query(&store, QueryMsg::GetPropose {}),
        Err(ContractError::NoActiveProposal)
    );
    let res = execute(
        &mut store,
        "alice".to_string(),
        ExecuteMsg::Vote {
            vote: Vote::Yes,
            weight: 1,
        },
    );
    assert_eq!(res, Err(ContractError::NoActiveProposal));
    let res = execute(&mut store, "creator".to_string(), ExecuteMsg::CloseVote {});
    assert_eq!(res, Err(ContractError::NoActiveProposal));
}

#[test]
fn propose_supersedes_prior_proposal() {
    let mut store = Store::new();
    instantiate(&mut store, "creator".to_string(), InstantiateMsg {});
    execute(
        &mut store,
        "creator".to_string(),
        ExecuteMsg::Propose(ProposeMsg {
            title: "first".to_string(),
        }),
    )
    .unwrap();
    execute(
        &mut store,
        "alice".to_string(),
        ExecuteMsg::Vote {
            vote: Vote::Yes,
            weight: 42,
        },
    )
    .unwrap();
    execute(
        &mut store,
        "bob".to_string(),
        ExecuteMsg::Propose(ProposeMsg {
            title: "second".to_string(),
        }),
    )
    .unwrap();
    let p = proposal_of(&store);
    assert_eq!("second", p.title);
    assert_eq!("bob", p.proposer);
    assert_eq!(0u128, p.total_votes);
    assert_eq!(Status::Open, p.status);
}

#[test]
fn unpopulated_queries_answer_empty() {
    let store = Store::new();
    assert_eq!(
        query(
            &store,
            QueryMsg::GetVoter {
                address: "alice".to_string()
            }
        ),
        Ok(QueryAnswer::Empty {})
    );
    assert_eq!(query(&store, QueryMsg::GetStatus {}), Ok(QueryAnswer::Empty {}));
}

#[test]
fn migrate_changes_nothing() {
    let mut store = Store::new();
    instantiate(&mut store, "creator".to_string(), InstantiateMsg {});
    let snapshot = store.clone();
    migrate(&mut store, MigrateMsg {});
    assert_eq!(snapshot, store);
}
