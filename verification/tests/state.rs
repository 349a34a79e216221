//! Unit tests of the tally, the registry, the proposal state machine, and
//! the store.

use governance::errors::ContractError;
use governance::state::{
    read_config, read_proposal, store_config, store_proposal, Config, Proposal, Registry, Store,
    Voter, Votes,
};
use governance::types::{Status, Vote};

fn test_config() -> Config {
    Config {
        owner: "creator".to_string(),
        required_votes: 10,
    }
}

#[test]
fn total_is_the_sum_of_the_buckets() {
    let votes = Votes {
        yes: 3,
        no: 4,
        abstain: 5,
    };
    assert_eq!(12u128, votes.total());
    assert_eq!(0u128, Votes::zero().total());
}

#[test]
fn add_vote_fills_the_matching_bucket() {
    let mut votes = Votes::zero();
    votes.add_vote(Vote::Yes, 7).unwrap();
    votes.add_vote(Vote::No, 2).unwrap();
    votes.add_vote(Vote::Abstain, 1).unwrap();
    votes.add_vote(Vote::Yes, 3).unwrap();
    assert_eq!(
        votes,
        Votes {
            yes: 10,
            no: 2,
            abstain: 1,
        }
    );
    assert_eq!(13u128, votes.total());
}

#[test]
fn add_vote_reports_overflow_and_keeps_the_tally() {
    // The tally judges overflow on the combined total, so a weight that fits
    // its bucket but not the total is still rejected.
    let mut votes = Votes {
        yes: u128::MAX - 5,
        no: 3,
        abstain: 0,
    };
    let before = votes;
    assert_eq!(
        Err(ContractError::ArithmeticOverflow),
        votes.add_vote(Vote::Abstain, 3)
    );
    assert_eq!(before, votes);
    assert_eq!(Ok(()), votes.add_vote(Vote::Abstain, 2));
    assert_eq!(u128::MAX, votes.total());
}

#[test]
fn total_after_a_sequence_of_votes_is_the_sum_of_the_weights() {
    // The choice distribution does not matter: only the weights do.
    let weights = [5u128, 1, 9, 0, 7];
    let choices = [Vote::Yes, Vote::No, Vote::Abstain, Vote::No, Vote::Yes];
    let mut votes = Votes::zero();
    for (w, c) in weights.iter().zip(choices.iter()) {
        votes.add_vote(*c, *w).unwrap();
    }
    assert_eq!(weights.iter().sum::<u128>(), votes.total());
}

#[test]
fn registry_records_each_identity_once() {
    let mut reg = Registry::new();
    assert!(!reg.has_voted(&"alice".to_string()));
    assert_eq!(Ok(()), reg.record_vote(&"alice".to_string()));
    assert!(reg.has_voted(&"alice".to_string()));
    assert!(!reg.has_voted(&"bob".to_string()));
    assert_eq!(
        Err(ContractError::AlreadyVoted),
        reg.record_vote(&"alice".to_string())
    );
    assert_eq!(Ok(()), reg.record_vote(&"bob".to_string()));
    assert!(reg.has_voted(&"bob".to_string()));
}

#[test]
fn eligibility_follows_the_whitelist_flag() {
    let mut reg = Registry::new();
    // With whitelisting disabled everyone is eligible.
    assert!(reg.is_eligible(&"alice".to_string(), false));
    // With whitelisting enabled only whitelisted identities are.
    assert!(!reg.is_eligible(&"alice".to_string(), true));
    reg.set_whitelisted(&"alice".to_string());
    assert!(reg.is_eligible(&"alice".to_string(), true));
    assert!(!reg.is_eligible(&"bob".to_string(), true));
    // Whitelisting an identity does not mark it as having voted.
    assert!(!reg.has_voted(&"alice".to_string()));
}

#[test]
fn create_builds_an_open_empty_proposal() {
    let prop = Proposal::create("creator".to_string(), "T".to_string(), &test_config());
    assert_eq!("creator", prop.proposer);
    assert_eq!("T", prop.title);
    assert_eq!(10u128, prop.min_votes);
    assert_eq!(0u128, prop.votes.total());
    assert!(prop.voters.voters.is_empty());
    assert!(!prop.whitelist);
    assert_eq!(Status::Open, prop.status);
}

#[test]
fn accept_vote_checks_in_order() {
    let cfg = test_config();
    let mut prop = Proposal::create("creator".to_string(), "T".to_string(), &cfg);
    prop.enable_whitelist();
    prop.whitelist_voter(&"alice".to_string());
    // Ineligible before anything else is considered.
    assert_eq!(
        Err(ContractError::VoterIneligible),
        prop.accept_vote(&"bob".to_string(), Vote::Yes, 1)
    );
    assert_eq!(Ok(()), prop.accept_vote(&"alice".to_string(), Vote::Yes, 4));
    assert_eq!(
        Err(ContractError::AlreadyVoted),
        prop.accept_vote(&"alice".to_string(), Vote::No, 1)
    );
    prop.close(&cfg).unwrap();
    // On a terminal proposal every vote fails with ProposalNotOpen, even one
    // that would be ineligible or a duplicate.
    assert_eq!(
        Err(ContractError::ProposalNotOpen),
        prop.accept_vote(&"alice".to_string(), Vote::Yes, 1)
    );
    assert_eq!(
        Err(ContractError::ProposalNotOpen),
        prop.accept_vote(&"bob".to_string(), Vote::Yes, 1)
    );
}

#[test]
fn close_resolves_against_the_threshold() {
    let cfg = test_config();
    let mut at_threshold = Proposal::create("creator".to_string(), "T".to_string(), &cfg);
    at_threshold
        .accept_vote(&"alice".to_string(), Vote::Yes, 10)
        .unwrap();
    at_threshold.close(&cfg).unwrap();
    assert_eq!(Status::Rejected, at_threshold.status);

    let mut above_threshold = Proposal::create("creator".to_string(), "T".to_string(), &cfg);
    above_threshold
        .accept_vote(&"alice".to_string(), Vote::Yes, 11)
        .unwrap();
    above_threshold.close(&cfg).unwrap();
    assert_eq!(Status::Closed, above_threshold.status);

    let before = above_threshold.clone();
    assert_eq!(
        Err(ContractError::ProposalNotOpen),
        above_threshold.close(&cfg)
    );
    assert_eq!(before, above_threshold);
}

#[test]
fn store_round_trips_both_records() {
    let mut store = Store::new();
    assert_eq!(Err(ContractError::Uninitialized), read_config(&store));
    assert_eq!(Err(ContractError::NoActiveProposal), read_proposal(&store));

    store_config(&mut store, test_config());
    assert_eq!(Ok(&test_config()), read_config(&store));

    let prop = Proposal::create("creator".to_string(), "T".to_string(), &test_config());
    store_proposal(&mut store, prop.clone());
    assert_eq!(Ok(&prop), read_proposal(&store));
    // The two records live in independent slots.
    assert_eq!(Ok(&test_config()), read_config(&store));
}

#[test]
fn registry_entries_carry_both_marks() {
    let mut reg = Registry::new();
    reg.set_whitelisted(&"alice".to_string());
    reg.record_vote(&"alice".to_string()).unwrap();
    assert_eq!(
        reg.voters,
        vec![Voter {
            address: "alice".to_string(),
            vote_status: true,
            whitelisted: true,
        }]
    );
}
