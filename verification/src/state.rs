//! The governance state: configuration, vote tally, voter registry, the
//! proposal state machine, and the store that holds the persisted records.

use vstd::prelude::*;

use crate::errors::ContractError;
use crate::types::{Status, Vote};

verus! {

/// The vote threshold a deployment is configured with when the initialization
/// request names none.
pub const DEFAULT_REQUIRED_VOTES: u128 = 10;

/// The deployment configuration, set once at initialization and immutable
/// thereafter.
#[derive(Clone, Debug, PartialEq, Eq)]
pub struct Config {
    /// The identity that initialized the deployment.
    pub owner: String,
    /// The aggregate weight a proposal's tally must strictly exceed to close
    /// as approved.
    pub required_votes: u128,
}

/// The weighted vote tally of one proposal.
///
/// The registry, not the tally, guards against duplicate votes: `add_vote`
/// itself accepts any weight whose addition keeps the total inside `u128`.
#[derive(Clone, Copy, Debug, PartialEq, Eq, Structural)]
pub struct Votes {
    pub yes: u128,
    pub no: u128,
    pub abstain: u128,
}

impl Votes {
    /// The mathematical total of the three buckets.
    pub open spec fn spec_total(self) -> int {
        self.yes + self.no + self.abstain
    }

    /// The tally's buckets sum to a representable total.
    pub open spec fn wf(self) -> bool {
        self.spec_total() <= u128::MAX
    }

    /// What `add_vote` does to a tally on success: the bucket matching
    /// `vote` grows by `weight` and the other two buckets keep their value.
    pub open spec fn spec_add_vote(self, vote: Vote, weight: u128) -> Votes {
        match vote {
            Vote::Yes => Votes { yes: (self.yes + weight) as u128, ..self },
            Vote::No => Votes { no: (self.no + weight) as u128, ..self },
            Vote::Abstain => Votes { abstain: (self.abstain + weight) as u128, ..self },
        }
    }

    /// A zeroed tally, the state of every new proposal.
    pub fn zero() -> (r: Votes)
        ensures
            r == (Votes { yes: 0, no: 0, abstain: 0 }),
    {
        Votes { yes: 0, no: 0, abstain: 0 }
    }

    /// The sum of all three buckets.
    pub fn total(&self) -> (r: u128)
        requires
            self.wf(),
        ensures
            r == self.spec_total(),
    {
        self.yes + self.no + self.abstain
    }

    /// Decides whether the three buckets sum to a representable total.
    pub fn check_wf(&self) -> (r: bool)
        ensures
            r == self.wf(),
    {
        if self.no <= u128::MAX - self.yes {
            let partial = self.yes + self.no;
            self.abstain <= u128::MAX - partial
        } else {
            false
        }
    }

    /// Adds `weight` to the bucket matching `vote`.
    ///
    /// Fails with `ArithmeticOverflow` exactly when the addition would push
    /// the combined total past `u128::MAX`; the tally is then unchanged.
    /// Judging overflow on the total rather than on the single bucket keeps
    /// the total itself always representable.
    pub fn add_vote(&mut self, vote: Vote, weight: u128) -> (r: Result<(), ContractError>)
        requires
            old(self).wf(),
        ensures
            final(self).wf(),
            old(self).spec_total() + weight > u128::MAX ==> r == Err::<(), ContractError>(
                ContractError::ArithmeticOverflow,
            ) && *final(self) == *old(self),
            old(self).spec_total() + weight <= u128::MAX ==> r == Ok::<(), ContractError>(())
                && *final(self) == old(self).spec_add_vote(vote, weight),
    {
        let total: u128 = self.yes + self.no + self.abstain;
        if weight > u128::MAX - total {
            return Err(ContractError::ArithmeticOverflow);
        }
        match vote {
            Vote::Yes => self.yes = self.yes + weight,
            Vote::No => self.no = self.no + weight,
            Vote::Abstain => self.abstain = self.abstain + weight,
        }
        Ok(())
    }
}

/// One registry entry: an identity, whether it has voted on the current
/// proposal, and whether it is whitelisted.
#[derive(Clone, Debug, PartialEq, Eq)]
pub struct Voter {
    pub address: String,
    pub vote_status: bool,
    pub whitelisted: bool,
}

/// The per-proposal voter registry: a mapping from identity to entry, kept as
/// a vector with pairwise-distinct addresses.
#[derive(Clone, Debug, PartialEq, Eq)]
pub struct Registry {
    pub voters: Vec<Voter>,
}

impl Registry {
    /// The addresses of the entries are pairwise distinct, so each identity
    /// has at most one entry.
    pub open spec fn wf(self) -> bool {
        forall|i: int, j: int|
            0 <= i < j < self.voters@.len() ==> (#[trigger] self.voters@[i]).address@ != (
            #[trigger] self.voters@[j]).address@
    }

    /// The registry has an entry for `address`.
    pub open spec fn spec_contains(self, address: Seq<char>) -> bool {
        exists|i: int|
            0 <= i < self.voters@.len() && (#[trigger] self.voters@[i]).address@ == address
    }

    /// The identity `address` has voted on the current proposal.
    pub open spec fn spec_voted(self, address: Seq<char>) -> bool {
        exists|i: int|
            0 <= i < self.voters@.len() && (#[trigger] self.voters@[i]).address@ == address
                && self.voters@[i].vote_status
    }

    /// The identity `address` is whitelisted.
    pub open spec fn spec_whitelisted(self, address: Seq<char>) -> bool {
        exists|i: int|
            0 <= i < self.voters@.len() && (#[trigger] self.voters@[i]).address@ == address
                && self.voters@[i].whitelisted
    }

    /// What `record_vote` does to a registry on success: `address` is marked
    /// as having voted, every other identity's voted mark is untouched, and
    /// every identity's whitelist mark is untouched.
    pub open spec fn spec_recorded(pre: Registry, post: Registry, address: Seq<char>) -> bool {
        &&& post.wf()
        &&& post.spec_contains(address)
        &&& post.spec_voted(address)
        &&& forall|b: Seq<char>| b != address ==> #[trigger] post.spec_voted(b) == pre.spec_voted(b)
        &&& forall|b: Seq<char>|
            b != address ==> #[trigger] post.spec_contains(b) == pre.spec_contains(b)
        &&& forall|b: Seq<char>| #[trigger] post.spec_whitelisted(b) == pre.spec_whitelisted(b)
    }

    /// An empty registry, the state of every new proposal.
    pub fn new() -> (r: Registry)
        ensures
            r.wf(),
            r.voters@.len() == 0,
            forall|b: Seq<char>| !(#[trigger] r.spec_contains(b)),
            forall|b: Seq<char>| !(#[trigger] r.spec_voted(b)),
            forall|b: Seq<char>| !(#[trigger] r.spec_whitelisted(b)),
    {
        Registry { voters: Vec::new() }
    }

    /// Decides whether the entries' addresses are pairwise distinct.
    pub fn check_wf(&self) -> (r: bool)
        ensures
            r == self.wf(),
    {
        let n = self.voters.len();
        for i in 0..n
            invariant
                n == self.voters@.len(),
                forall|p: int, q: int|
                    0 <= p < q < self.voters@.len() && p < i ==> (
                    #[trigger] self.voters@[p]).address@ != (#[trigger] self.voters@[q]).address@,
        {
            for j in (i + 1)..n
                invariant
                    i < n == self.voters@.len(),
                    forall|p: int, q: int|
                        0 <= p < q < self.voters@.len() && p < i ==> (
                        #[trigger] self.voters@[p]).address@ != (
                        #[trigger] self.voters@[q]).address@,
                    forall|q: int|
                        i < q < j ==> self.voters@[i as int].address@ != (
                        #[trigger] self.voters@[q]).address@,
            {
                if self.voters[i].address == self.voters[j].address {
                    return false;
                }
            }
        }
        true
    }

    /// The position of the entry for `address`, if there is one.
    fn find(&self, address: &String) -> (r: Option<usize>)
        ensures
            match r {
                Some(i) => i < self.voters@.len() && self.voters@[i as int].address@ == address@,
                None => !self.spec_contains(address@),
            },
    {
        let n = self.voters.len();
        for i in 0..n
            invariant
                n == self.voters@.len(),
                forall|j: int| 0 <= j < i ==> (#[trigger] self.voters@[j]).address@ != address@,
        {
            if self.voters[i].address == *address {
                return Some(i);
            }
        }
        None
    }

    /// Whether `address` may vote: always when whitelisting is disabled,
    /// otherwise only when the registry marks it whitelisted.
    pub fn is_eligible(&self, address: &String, whitelist_enabled: bool) -> (r: bool)
        requires
            self.wf(),
        ensures
            r == (!whitelist_enabled || self.spec_whitelisted(address@)),
    {
        if !whitelist_enabled {
            return true;
        }
        match self.find(address) {
            Some(i) => {
                let w = self.voters[i].whitelisted;
                proof {
                    self.lemma_entry_determines(i as int);
                }
                w
            },
            None => {
                proof {
                    if self.spec_whitelisted(address@) {
                        let i = choose|i: int|
                            0 <= i < self.voters@.len() && (#[trigger] self.voters@[i]).address@
                                == address@ && self.voters@[i].whitelisted;
                        assert(self.spec_contains(address@));
                    }
                }
                false
            },
        }
    }

    /// Marks `address` as having voted.
    ///
    /// Fails with `AlreadyVoted` exactly when the registry already records a
    /// vote by `address`; the registry is then unchanged. Otherwise the entry
    /// for `address` is marked (a missing entry is created unwhitelisted).
    pub fn record_vote(&mut self, address: &String) -> (r: Result<(), ContractError>)
        requires
            old(self).wf(),
        ensures
            final(self).wf(),
            old(self).spec_voted(address@) ==> r == Err::<(), ContractError>(
                ContractError::AlreadyVoted,
            ) && *final(self) == *old(self),
            !old(self).spec_voted(address@) ==> r == Ok::<(), ContractError>(())
                && Registry::spec_recorded(*old(self), *final(self), address@),
    {
        match self.find(address) {
            Some(i) => {
                proof {
                    self.lemma_entry_determines(i as int);
                }
                if self.voters[i].vote_status {
                    Err(ContractError::AlreadyVoted)
                } else {
                    let entry = Voter {
                        address: self.voters[i].address.clone(),
                        vote_status: true,
                        whitelisted: self.voters[i].whitelisted,
                    };
                    let ghost pre = *self;
                    self.voters.set(i, entry);
                    proof {
                        pre.lemma_update_records(*self, i as int, address@);
                    }
                    Ok(())
                }
            },
            None => {
                proof {
                    if self.spec_voted(address@) {
                        let i = choose|i: int|
                            0 <= i < self.voters@.len() && (#[trigger] self.voters@[i]).address@
                                == address@ && self.voters@[i].vote_status;
                        assert(self.spec_contains(address@));
                    }
                }
                let entry = Voter { address: address.clone(), vote_status: true, whitelisted: false };
                let ghost pre = *self;
                self.voters.push(entry);
                proof {
                    pre.lemma_push_records(*self, address@);
                }
                Ok(())
            },
        }
    }

    /// Marks `address` as whitelisted, creating its entry when missing; the
    /// voted marks of every identity are untouched.
    pub fn set_whitelisted(&mut self, address: &String)
        requires
            old(self).wf(),
        ensures
            final(self).wf(),
            final(self).spec_whitelisted(address@),
            final(self).spec_contains(address@),
            forall|b: Seq<char>|
                b != address@ ==> #[trigger] final(self).spec_whitelisted(b) == old(
                    self,
                ).spec_whitelisted(b),
            forall|b: Seq<char>|
                b != address@ ==> #[trigger] final(self).spec_contains(b) == old(
                    self,
                ).spec_contains(b),
            forall|b: Seq<char>| #[trigger]
                final(self).spec_voted(b) == old(self).spec_voted(b),
    {
        match self.find(address) {
            Some(i) => {
                let entry = Voter {
                    address: self.voters[i].address.clone(),
                    vote_status: self.voters[i].vote_status,
                    whitelisted: true,
                };
                let ghost pre = *self;
                self.voters.set(i, entry);
                proof {
                    pre.lemma_update_whitelists(*self, i as int, address@);
                }
            },
            None => {
                proof {
                    if self.spec_whitelisted(address@) {
                        let i = choose|i: int|
                            0 <= i < self.voters@.len() && (#[trigger] self.voters@[i]).address@
                                == address@ && self.voters@[i].whitelisted;
                        assert(self.spec_contains(address@));
                    }
                    if self.spec_voted(address@) {
                        let i = choose|i: int|
                            0 <= i < self.voters@.len() && (#[trigger] self.voters@[i]).address@
                                == address@ && self.voters@[i].vote_status;
                        assert(self.spec_contains(address@));
                    }
                }
                let entry = Voter { address: address.clone(), vote_status: false, whitelisted: true };
                let ghost pre = *self;
                self.voters.push(entry);
                proof {
                    pre.lemma_push_whitelists(*self, address@);
                }
            },
        }
    }

    /// In a well-formed registry the entry at `i` settles its address's
    /// voted, whitelisted, and membership marks.
    proof fn lemma_entry_determines(self, i: int)
        requires
            self.wf(),
            0 <= i < self.voters@.len(),
        ensures
            self.spec_contains(self.voters@[i].address@),
            self.spec_voted(self.voters@[i].address@) == self.voters@[i].vote_status,
            self.spec_whitelisted(self.voters@[i].address@) == self.voters@[i].whitelisted,
    {
        let a = self.voters@[i].address@;
        if self.spec_voted(a) {
            let j = choose|j: int|
                0 <= j < self.voters@.len() && (#[trigger] self.voters@[j]).address@ == a
                    && self.voters@[j].vote_status;
            assert(j == i);
        }
        if self.spec_whitelisted(a) {
            let j = choose|j: int|
                0 <= j < self.voters@.len() && (#[trigger] self.voters@[j]).address@ == a
                    && self.voters@[j].whitelisted;
            assert(j == i);
        }
    }

    /// Replacing the entry at `i` with one that keeps its address and
    /// whitelist mark but is marked voted records exactly `address`.
    proof fn lemma_update_records(self, post: Registry, i: int, address: Seq<char>)
        requires
            self.wf(),
            0 <= i < self.voters@.len(),
            self.voters@[i].address@ == address,
            !self.voters@[i].vote_status,
            post.voters@ == self.voters@.update(
                i,
                Voter {
                    address: post.voters@[i].address,
                    vote_status: true,
                    whitelisted: self.voters@[i].whitelisted,
                },
            ),
            post.voters@[i].address@ == address,
        ensures
            Registry::spec_recorded(self, post, address),
    {
        assert forall|p: int, q: int| 0 <= p < q < post.voters@.len() implies (
        #[trigger] post.voters@[p]).address@ != (#[trigger] post.voters@[q]).address@ by {
            assert(self.voters@[p].address@ != self.voters@[q].address@);
        }
        assert(post.spec_voted(address)) by {
            assert(post.voters@[i].address@ == address && post.voters@[i].vote_status);
        }
        assert(post.spec_contains(address));
        assert forall|b: Seq<char>| b != address implies #[trigger] post.spec_voted(b)
            == self.spec_voted(b) by {
            self.lemma_update_marks_agree(post, i, b);
        }
        assert forall|b: Seq<char>| b != address implies #[trigger] post.spec_contains(b)
            == self.spec_contains(b) by {
            self.lemma_update_marks_agree(post, i, b);
        }
        assert forall|b: Seq<char>| #[trigger] post.spec_whitelisted(b)
            == self.spec_whitelisted(b) by {
            if b == address {
                self.lemma_entry_determines(i);
                post.lemma_entry_determines(i);
            } else {
                self.lemma_update_marks_agree(post, i, b);
            }
        }
    }

    /// Entry-wise agreement off position `i` carries each mark of an address
    /// other than the one at `i` across an update of that position.
    proof fn lemma_update_marks_agree(self, post: Registry, i: int, b: Seq<char>)
        requires
            0 <= i < self.voters@.len(),
            post.voters@.len() == self.voters@.len(),
            forall|j: int|
                0 <= j < self.voters@.len() && j != i ==> #[trigger] post.voters@[j]
                    == self.voters@[j],
            self.voters@[i].address@ == post.voters@[i].address@,
            b != self.voters@[i].address@,
        ensures
            post.spec_voted(b) == self.spec_voted(b),
            post.spec_contains(b) == self.spec_contains(b),
            post.spec_whitelisted(b) == self.spec_whitelisted(b),
    {
        if self.spec_voted(b) {
            let j = choose|j: int|
                0 <= j < self.voters@.len() && (#[trigger] self.voters@[j]).address@ == b
                    && self.voters@[j].vote_status;
            assert(post.voters@[j].address@ == b && post.voters@[j].vote_status);
        }
        if post.spec_voted(b) {
            let j = choose|j: int|
                0 <= j < post.voters@.len() && (#[trigger] post.voters@[j]).address@ == b
                    && post.voters@[j].vote_status;
            assert(self.voters@[j].address@ == b && self.voters@[j].vote_status);
        }
        if self.spec_contains(b) {
            let j = choose|j: int|
                0 <= j < self.voters@.len() && (#[trigger] self.voters@[j]).address@ == b;
            assert(post.voters@[j].address@ == b);
        }
        if post.spec_contains(b) {
            let j = choose|j: int|
                0 <= j < post.voters@.len() && (#[trigger] post.voters@[j]).address@ == b;
            assert(self.voters@[j].address@ == b);
        }
        if self.spec_whitelisted(b) {
            let j = choose|j: int|
                0 <= j < self.voters@.len() && (#[trigger] self.voters@[j]).address@ == b
                    && self.voters@[j].whitelisted;
            assert(post.voters@[j].address@ == b && post.voters@[j].whitelisted);
        }
        if post.spec_whitelisted(b) {
            let j = choose|j: int|
                0 <= j < post.voters@.len() && (#[trigger] post.voters@[j]).address@ == b
                    && post.voters@[j].whitelisted;
            assert(self.voters@[j].address@ == b && self.voters@[j].whitelisted);
        }
    }

    /// Appending a fresh, voted, unwhitelisted entry for `address` records
    /// exactly `address`.
    proof fn lemma_push_records(self, post: Registry, address: Seq<char>)
        requires
            self.wf(),
            !self.spec_contains(address),
            post.voters@.len() == self.voters@.len() + 1,
            forall|j: int| 0 <= j < self.voters@.len() ==> #[trigger] post.voters@[j]
                == self.voters@[j],
            post.voters@[self.voters@.len() as int] == (Voter {
                address: post.voters@[self.voters@.len() as int].address,
                vote_status: true,
                whitelisted: false,
            }),
            post.voters@[self.voters@.len() as int].address@ == address,
        ensures
            Registry::spec_recorded(self, post, address),
    {
        let n = self.voters@.len() as int;
        assert forall|p: int, q: int| 0 <= p < q < post.voters@.len() implies (
        #[trigger] post.voters@[p]).address@ != (#[trigger] post.voters@[q]).address@ by {
            if q < n {
                assert(self.voters@[p].address@ != self.voters@[q].address@);
            } else {
                assert(self.voters@[p].address@ != address);
            }
        }
        assert(post.spec_voted(address)) by {
            assert(post.voters@[n].address@ == address && post.voters@[n].vote_status);
        }
        assert(post.spec_contains(address));
        assert forall|b: Seq<char>| b != address implies #[trigger] post.spec_voted(b)
            == self.spec_voted(b) by {
            self.lemma_push_marks_agree(post, b);
        }
        assert forall|b: Seq<char>| b != address implies #[trigger] post.spec_contains(b)
            == self.spec_contains(b) by {
            self.lemma_push_marks_agree(post, b);
        }
        assert forall|b: Seq<char>| #[trigger] post.spec_whitelisted(b)
            == self.spec_whitelisted(b) by {
            if b == address {
                if post.spec_whitelisted(b) {
                    let j = choose|j: int|
                        0 <= j < post.voters@.len() && (#[trigger] post.voters@[j]).address@ == b
                            && post.voters@[j].whitelisted;
                    assert(j < n ==> self.spec_contains(b));
                }
                if self.spec_whitelisted(b) {
                    let j = choose|j: int|
                        0 <= j < self.voters@.len() && (#[trigger] self.voters@[j]).address@ == b
                            && self.voters@[j].whitelisted;
                    assert(self.spec_contains(b));
                }
            } else {
                self.lemma_push_marks_agree(post, b);
            }
        }
    }

    /// Appending an entry for a different address carries each mark of `b`
    /// across the append.
    proof fn lemma_push_marks_agree(self, post: Registry, b: Seq<char>)
        requires
            post.voters@.len() == self.voters@.len() + 1,
            forall|j: int| 0 <= j < self.voters@.len() ==> #[trigger] post.voters@[j]
                == self.voters@[j],
            post.voters@[self.voters@.len() as int].address@ != b,
        ensures
            post.spec_voted(b) == self.spec_voted(b),
            post.spec_contains(b) == self.spec_contains(b),
            post.spec_whitelisted(b) == self.spec_whitelisted(b),
    {
        let n = self.voters@.len() as int;
        if self.spec_voted(b) {
            let j = choose|j: int|
                0 <= j < self.voters@.len() && (#[trigger] self.voters@[j]).address@ == b
                    && self.voters@[j].vote_status;
            assert(post.voters@[j].address@ == b && post.voters@[j].vote_status);
        }
        if post.spec_voted(b) {
            let j = choose|j: int|
                0 <= j < post.voters@.len() && (#[trigger] post.voters@[j]).address@ == b
                    && post.voters@[j].vote_status;
            assert(j < n);
            assert(self.voters@[j].address@ == b && self.voters@[j].vote_status);
        }
        if self.spec_contains(b) {
            let j = choose|j: int|
                0 <= j < self.voters@.len() && (#[trigger] self.voters@[j]).address@ == b;
            assert(post.voters@[j].address@ == b);
        }
        if post.spec_contains(b) {
            let j = choose|j: int|
                0 <= j < post.voters@.len() && (#[trigger] post.voters@[j]).address@ == b;
            assert(j < n);
            assert(self.voters@[j].address@ == b);
        }
        if self.spec_whitelisted(b) {
            let j = choose|j: int|
                0 <= j < self.voters@.len() && (#[trigger] self.voters@[j]).address@ == b
                    && self.voters@[j].whitelisted;
            assert(post.voters@[j].address@ == b && post.voters@[j].whitelisted);
        }
        if post.spec_whitelisted(b) {
            let j = choose|j: int|
                0 <= j < post.voters@.len() && (#[trigger] post.voters@[j]).address@ == b
                    && post.voters@[j].whitelisted;
            assert(j < n);
            assert(self.voters@[j].address@ == b && self.voters@[j].whitelisted);
        }
    }

    /// Replacing the entry at `i` with one that keeps its address and voted
    /// mark but is whitelisted whitelists exactly `address`.
    proof fn lemma_update_whitelists(self, post: Registry, i: int, address: Seq<char>)
        requires
            self.wf(),
            0 <= i < self.voters@.len(),
            self.voters@[i].address@ == address,
            post.voters@ == self.voters@.update(
                i,
                Voter {
                    address: post.voters@[i].address,
                    vote_status: self.voters@[i].vote_status,
                    whitelisted: true,
                },
            ),
            post.voters@[i].address@ == address,
        ensures
            post.wf(),
            post.spec_whitelisted(address),
            post.spec_contains(address),
            forall|b: Seq<char>|
                b != address ==> #[trigger] post.spec_whitelisted(b) == self.spec_whitelisted(b),
            forall|b: Seq<char>|
                b != address ==> #[trigger] post.spec_contains(b) == self.spec_contains(b),
            forall|b: Seq<char>| #[trigger] post.spec_voted(b) == self.spec_voted(b),
    {
        assert forall|p: int, q: int| 0 <= p < q < post.voters@.len() implies (
        #[trigger] post.voters@[p]).address@ != (#[trigger] post.voters@[q]).address@ by {
            assert(self.voters@[p].address@ != self.voters@[q].address@);
        }
        assert(post.spec_whitelisted(address)) by {
            assert(post.voters@[i].address@ == address && post.voters@[i].whitelisted);
        }
        assert(post.spec_contains(address));
        assert forall|b: Seq<char>| b != address implies #[trigger] post.spec_whitelisted(b)
            == self.spec_whitelisted(b) by {
            self.lemma_update_marks_agree(post, i, b);
        }
        assert forall|b: Seq<char>| b != address implies #[trigger] post.spec_contains(b)
            == self.spec_contains(b) by {
            self.lemma_update_marks_agree(post, i, b);
        }
        assert forall|b: Seq<char>| #[trigger] post.spec_voted(b) == self.spec_voted(b) by {
            if b == address {
                self.lemma_entry_determines(i);
                post.lemma_entry_determines(i);
            } else {
                self.lemma_update_marks_agree(post, i, b);
            }
        }
    }

    /// The identity `address` has voted on the current proposal.
    pub fn has_voted(&self, address: &String) -> (r: bool)
        requires
            self.wf(),
        ensures
            r == self.spec_voted(address@),
    {
        match self.find(address) {
            Some(i) => {
                let v = self.voters[i].vote_status;
                proof {
                    self.lemma_entry_determines(i as int);
                }
                v
            },
            None => {
                proof {
                    if self.spec_voted(address@) {
                        let i = choose|i: int|
                            0 <= i < self.voters@.len() && (#[trigger] self.voters@[i]).address@
                                == address@ && self.voters@[i].vote_status;
                        assert(self.spec_contains(address@));
                    }
                }
                false
            },
        }
    }

    /// Appending a fresh, unvoted, whitelisted entry for `address`
    /// whitelists exactly `address`.
    proof fn lemma_push_whitelists(self, post: Registry, address: Seq<char>)
        requires
            self.wf(),
            !self.spec_contains(address),
            post.voters@.len() == self.voters@.len() + 1,
            forall|j: int| 0 <= j < self.voters@.len() ==> #[trigger] post.voters@[j]
                == self.voters@[j],
            post.voters@[self.voters@.len() as int] == (Voter {
                address: post.voters@[self.voters@.len() as int].address,
                vote_status: false,
                whitelisted: true,
            }),
            post.voters@[self.voters@.len() as int].address@ == address,
        ensures
            post.wf(),
            post.spec_whitelisted(address),
            post.spec_contains(address),
            forall|b: Seq<char>|
                b != address ==> #[trigger] post.spec_whitelisted(b) == self.spec_whitelisted(b),
            forall|b: Seq<char>|
                b != address ==> #[trigger] post.spec_contains(b) == self.spec_contains(b),
            forall|b: Seq<char>| #[trigger] post.spec_voted(b) == self.spec_voted(b),
    {
        let n = self.voters@.len() as int;
        assert forall|p: int, q: int| 0 <= p < q < post.voters@.len() implies (
        #[trigger] post.voters@[p]).address@ != (#[trigger] post.voters@[q]).address@ by {
            if q < n {
                assert(self.voters@[p].address@ != self.voters@[q].address@);
            } else {
                assert(self.voters@[p].address@ != address);
            }
        }
        assert(post.spec_whitelisted(address)) by {
            assert(post.voters@[n].address@ == address && post.voters@[n].whitelisted);
        }
        assert(post.spec_contains(address));
        assert forall|b: Seq<char>| b != address implies #[trigger] post.spec_whitelisted(b)
            == self.spec_whitelisted(b) by {
            self.lemma_push_marks_agree(post, b);
        }
        assert forall|b: Seq<char>| b != address implies #[trigger] post.spec_contains(b)
            == self.spec_contains(b) by {
            self.lemma_push_marks_agree(post, b);
        }
        assert forall|b: Seq<char>| #[trigger] post.spec_voted(b) == self.spec_voted(b) by {
            if b == address {
                if post.spec_voted(b) {
                    let j = choose|j: int|
                        0 <= j < post.voters@.len() && (#[trigger] post.voters@[j]).address@ == b
                            && post.voters@[j].vote_status;
                    assert(j < n ==> self.spec_contains(b));
                }
                if self.spec_voted(b) {
                    let j = choose|j: int|
                        0 <= j < self.voters@.len() && (#[trigger] self.voters@[j]).address@ == b
                            && self.voters@[j].vote_status;
                    assert(self.spec_contains(b));
                }
            } else {
                self.lemma_push_marks_agree(post, b);
            }
        }
    }
}

/// The unit of governance decision-making: a titled proposal with its tally,
/// its voter registry, and its lifecycle status.
#[derive(Clone, Debug, PartialEq, Eq)]
pub struct Proposal {
    /// The identity that created the proposal.
    pub proposer: String,
    pub title: String,
    /// The vote threshold copied from the configuration at creation time.
    pub min_votes: u128,
    pub votes: Votes,
    pub voters: Registry,
    /// Whether voting is restricted to whitelisted identities.
    pub whitelist: bool,
    pub status: Status,
}

impl Proposal {
    /// The tally total is representable and the registry keys are unique.
    pub open spec fn wf(self) -> bool {
        self.votes.wf() && self.voters.wf()
    }

    /// The error a vote by `identity` with `weight` is rejected with, or
    /// `None` when the vote is accepted. The checks are ordered: proposal
    /// open, then eligibility, then the one-vote guard, then overflow.
    pub open spec fn spec_vote_error(self, identity: Seq<char>, weight: u128) -> Option<
        ContractError,
    > {
        if !(self.status is Open) {
            Some(ContractError::ProposalNotOpen)
        } else if self.whitelist && !self.voters.spec_whitelisted(identity) {
            Some(ContractError::VoterIneligible)
        } else if self.voters.spec_voted(identity) {
            Some(ContractError::AlreadyVoted)
        } else if self.votes.spec_total() + weight > u128::MAX {
            Some(ContractError::ArithmeticOverflow)
        } else {
            None
        }
    }

    /// What an accepted vote does to a proposal: the tally grows by `weight`
    /// in the bucket of `vote`, the registry records `identity`, and every
    /// other field keeps its value.
    pub open spec fn spec_voted_proposal(
        pre: Proposal,
        post: Proposal,
        identity: Seq<char>,
        vote: Vote,
        weight: u128,
    ) -> bool {
        &&& post.proposer == pre.proposer
        &&& post.title == pre.title
        &&& post.min_votes == pre.min_votes
        &&& post.whitelist == pre.whitelist
        &&& post.status == pre.status
        &&& post.votes == pre.votes.spec_add_vote(vote, weight)
        &&& Registry::spec_recorded(pre.voters, post.voters, identity)
    }

    /// Builds the proposal a `propose` request creates: open, with a zeroed
    /// tally, an empty registry, whitelisting disabled, and the configured
    /// vote threshold.
    pub fn create(proposer: String, title: String, config: &Config) -> (p: Proposal)
        ensures
            p.proposer == proposer,
            p.title == title,
            p.min_votes == config.required_votes,
            p.votes == (Votes { yes: 0, no: 0, abstain: 0 }),
            p.voters.voters@.len() == 0,
            !p.whitelist,
            p.status is Open,
            p.wf(),
    {
        Proposal {
            proposer,
            title,
            min_votes: config.required_votes,
            votes: Votes::zero(),
            voters: Registry::new(),
            whitelist: false,
            status: Status::Open,
        }
    }

    /// Accepts or rejects one vote, exactly as [`Self::spec_vote_error`]
    /// says: on `Some(e)` the call fails with `e` and changes nothing; on
    /// `None` the tally and the registry are updated and the proposal stays
    /// open.
    pub fn accept_vote(&mut self, identity: &String, vote: Vote, weight: u128) -> (r: Result<
        (),
        ContractError,
    >)
        requires
            old(self).wf(),
        ensures
            final(self).wf(),
            match old(self).spec_vote_error(identity@, weight) {
                Some(e) => r == Err::<(), ContractError>(e) && *final(self) == *old(self),
                None => r == Ok::<(), ContractError>(()) && Proposal::spec_voted_proposal(
                    *old(self),
                    *final(self),
                    identity@,
                    vote,
                    weight,
                ),
            },
    {
        if self.status != Status::Open {
            return Err(ContractError::ProposalNotOpen);
        }
        if !self.voters.is_eligible(identity, self.whitelist) {
            return Err(ContractError::VoterIneligible);
        }
        if self.voters.has_voted(identity) {
            return Err(ContractError::AlreadyVoted);
        }
        self.votes.add_vote(vote, weight)?;
        match self.voters.record_vote(identity) {
            Ok(()) => Ok(()),
            Err(e) => Err(e),
        }
    }

    /// Resolves an open proposal against the configured threshold: a total
    /// strictly greater than `config.required_votes` closes it as approved,
    /// a total less than or equal to it rejects it. A proposal that is
    /// already terminal is left unchanged and the call fails with
    /// `ProposalNotOpen`.
    pub fn close(&mut self, config: &Config) -> (r: Result<(), ContractError>)
        requires
            old(self).wf(),
        ensures
            final(self).wf(),
            !(old(self).status is Open) ==> r == Err::<(), ContractError>(
                ContractError::ProposalNotOpen,
            ) && *final(self) == *old(self),
            old(self).status is Open && old(self).votes.spec_total() <= config.required_votes
                ==> r == Ok::<(), ContractError>(()) && *final(self) == (Proposal {
                status: Status::Rejected,
                ..*old(self)
            }),
            old(self).status is Open && old(self).votes.spec_total() > config.required_votes
                ==> r == Ok::<(), ContractError>(()) && *final(self) == (Proposal {
                status: Status::Closed,
                ..*old(self)
            }),
    {
        if self.status != Status::Open {
            return Err(ContractError::ProposalNotOpen);
        }
        if self.votes.total() <= config.required_votes {
            self.status = Status::Rejected;
        } else {
            self.status = Status::Closed;
        }
        Ok(())
    }

    /// Decides whether the proposal is well formed: a representable tally
    /// total and pairwise-distinct registry addresses.
    pub fn check_wf(&self) -> (r: bool)
        ensures
            r == self.wf(),
    {
        self.votes.check_wf() && self.voters.check_wf()
    }

    /// Restricts voting on this proposal to whitelisted identities.
    pub fn enable_whitelist(&mut self)
        ensures
            *final(self) == (Proposal { whitelist: true, ..*old(self) }),
    {
        self.whitelist = true;
    }

    /// Marks `identity` as whitelisted in this proposal's registry; every
    /// other field and every voted mark keep their value.
    pub fn whitelist_voter(&mut self, identity: &String)
        requires
            old(self).wf(),
        ensures
            final(self).wf(),
            final(self).proposer == old(self).proposer,
            final(self).title == old(self).title,
            final(self).min_votes == old(self).min_votes,
            final(self).votes == old(self).votes,
            final(self).whitelist == old(self).whitelist,
            final(self).status == old(self).status,
            final(self).voters.spec_whitelisted(identity@),
            forall|b: Seq<char>|
                b != identity@ ==> #[trigger] final(self).voters.spec_whitelisted(b) == old(
                    self,
                ).voters.spec_whitelisted(b),
            forall|b: Seq<char>| #[trigger]
                final(self).voters.spec_voted(b) == old(self).voters.spec_voted(b),
    {
        self.voters.set_whitelisted(identity);
    }
}

/// The store of the persisted records: the configuration and the single
/// proposal slot. A host loads it, hands it to an operation, and persists it
/// back; the engine is its sole writer.
#[derive(Clone, Debug, PartialEq, Eq)]
pub struct Store {
    pub config: Option<Config>,
    pub proposal: Option<Proposal>,
}

impl Store {
    /// Whatever proposal the store holds is well formed.
    pub open spec fn inv(self) -> bool {
        match self.proposal {
            Some(p) => p.wf(),
            None => true,
        }
    }

    /// Decides whether the store upholds its invariant. A host that loads
    /// the records from storage it does not fully trust can test them here
    /// before handing them to an operation.
    pub fn validate(&self) -> (r: bool)
        ensures
            r == self.inv(),
    {
        match &self.proposal {
            Some(p) => p.check_wf(),
            None => true,
        }
    }

    /// An empty store: nothing initialized, no active proposal.
    pub fn new() -> (s: Store)
        ensures
            s.config is None,
            s.proposal is None,
            s.inv(),
    {
        Store { config: None, proposal: None }
    }
}

/// Writes the configuration record, leaving the proposal slot alone.
pub fn store_config(store: &mut Store, config: Config)
    requires
        old(store).inv(),
    ensures
        final(store).inv(),
        final(store).config == Some(config),
        final(store).proposal == old(store).proposal,
{
    store.config = Some(config);
}

/// Reads the configuration record; fails with `Uninitialized` exactly when
/// none has been stored.
pub fn read_config(store: &Store) -> (r: Result<&Config, ContractError>)
    ensures
        match r {
            Ok(c) => store.config == Some(*c),
            Err(e) => store.config is None && e == ContractError::Uninitialized,
        },
{
    match &store.config {
        Some(c) => Ok(c),
        None => Err(ContractError::Uninitialized),
    }
}

/// Writes the proposal record, superseding any prior proposal and leaving
/// the configuration alone.
pub fn store_proposal(store: &mut Store, prop: Proposal)
    requires
        old(store).inv(),
        prop.wf(),
    ensures
        final(store).inv(),
        final(store).proposal == Some(prop),
        final(store).config == old(store).config,
{
    store.proposal = Some(prop);
}

/// Reads the proposal record; fails with `NoActiveProposal` exactly when
/// none has been stored.
pub fn read_proposal(store: &Store) -> (r: Result<&Proposal, ContractError>)
    ensures
        match r {
            Ok(p) => store.proposal == Some(*p),
            Err(e) => store.proposal is None && e == ContractError::NoActiveProposal,
        },
{
    match &store.proposal {
        Some(p) => Ok(p),
        None => Err(ContractError::NoActiveProposal),
    }
}

/// An accepted tally update: adding `weight` to the bucket of `vote` did not
/// overflow the total. This is exactly what [`Votes::add_vote`] ensures of a
/// successful call.
pub open spec fn spec_accepted_vote(pre: Votes, post: Votes, vote: Vote, weight: u128) -> bool {
    &&& pre.spec_total() + weight <= u128::MAX
    &&& post == pre.spec_add_vote(vote, weight)
}

/// The sum of a sequence of vote weights.
pub open spec fn sum_of_weights(weights: Seq<u128>) -> int
    decreases weights.len(),
{
    if weights.len() == 0 {
        0
    } else {
        sum_of_weights(weights.drop_last()) + weights.last()
    }
}

/// Law: for every sequence of accepted votes on a fresh tally, the total
/// after the calls equals the sum of the submitted weights, regardless of
/// how the choices are distributed over the buckets. (A rejected vote leaves
/// the tally unchanged — see [`Votes::add_vote`] and
/// [`Proposal::accept_vote`] — so only accepted votes appear here.)
pub proof fn lemma_total_is_sum_of_weights(
    tallies: Seq<Votes>,
    votes: Seq<Vote>,
    weights: Seq<u128>,
)
    requires
        tallies.len() == weights.len() + 1,
        votes.len() == weights.len(),
        tallies[0].spec_total() == 0,
        forall|k: int|
            0 <= k < weights.len() ==> spec_accepted_vote(
                #[trigger] tallies[k],
                tallies[k + 1],
                votes[k],
                weights[k],
            ),
    ensures
        tallies.last().spec_total() == sum_of_weights(weights),
    decreases weights.len(),
{
    if weights.len() == 0 {
        assert(tallies.last() == tallies[0]);
    } else {
        let n = weights.len() as int;
        lemma_total_is_sum_of_weights(tallies.drop_last(), votes.drop_last(), weights.drop_last());
        assert(tallies.drop_last().last() == tallies[n - 1]);
        assert(spec_accepted_vote(tallies[n - 1], tallies[n], votes[n - 1], weights[n - 1]));
        assert(tallies[n].spec_total() == tallies[n - 1].spec_total() + weights[n - 1]) by {
            match votes[n - 1] {
                Vote::Yes => {},
                Vote::No => {},
                Vote::Abstain => {},
            }
        }
    }
}

/// Law: for every sequence of vote calls accepted on an open proposal with a
/// fresh tally, the tally total after the calls equals the sum of the
/// submitted weights, whatever the identities and however the choices are
/// distributed. Each step is one accepted call of
/// [`Proposal::accept_vote`], exactly as its contract describes it; a
/// rejected call leaves the proposal unchanged and so does not appear.
pub proof fn lemma_proposal_total_is_sum_of_weights(
    props: Seq<Proposal>,
    identities: Seq<Seq<char>>,
    votes: Seq<Vote>,
    weights: Seq<u128>,
)
    requires
        props.len() == weights.len() + 1,
        identities.len() == weights.len(),
        votes.len() == weights.len(),
        props[0].votes.spec_total() == 0,
        forall|k: int|
            0 <= k < weights.len() ==> (#[trigger] props[k].spec_vote_error(
                identities[k],
                weights[k],
            )) is None && Proposal::spec_voted_proposal(
                props[k],
                props[k + 1],
                identities[k],
                votes[k],
                weights[k],
            ),
    ensures
        props.last().votes.spec_total() == sum_of_weights(weights),
{
    let tallies = Seq::new(props.len(), |i: int| props[i].votes);
    assert forall|k: int| 0 <= k < weights.len() implies spec_accepted_vote(
        #[trigger] tallies[k],
        tallies[k + 1],
        votes[k],
        weights[k],
    ) by {
        assert(props[k].spec_vote_error(identities[k], weights[k]) is None);
    }
    lemma_total_is_sum_of_weights(tallies, votes, weights);
    assert(tallies.last() == props.last().votes);
}

} // verus!
