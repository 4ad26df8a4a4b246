use vstd::pervasive::unreached;
use vstd::pervasive::VecAdditionalExecFns;
use vstd::prelude::*;

use crate::errors::FastVoteError;
use crate::records::{
    is_zero32, FastAction, FastActionCancelled, FastActionCreated, FastActionExecuted, FastVote,
    FastVoteCast, VoteResult, MAX_VOTES_PER_ACTION, VOTING_WINDOW_SLOTS,
};

verus! {

/// There is an action record with this identifier.
pub open spec fn spec_has_action(actions: Seq<FastAction>, action_id: u64) -> bool {
    exists|i: int| 0 <= i < actions.len() && actions[i].action_id == action_id
}

/// Position of the action record with this identifier; meaningful only
/// when `spec_has_action` holds, and unique under `VotingLedger::wf`.
pub open spec fn spec_action_idx(actions: Seq<FastAction>, action_id: u64) -> int {
    choose|i: int| 0 <= i < actions.len() && actions[i].action_id == action_id
}

/// The action record with this identifier.
pub open spec fn spec_action(actions: Seq<FastAction>, action_id: u64) -> FastAction {
    actions[spec_action_idx(actions, action_id)]
}

/// There is a vote record for this `(action, voter)` pair.
pub open spec fn spec_has_vote(votes: Seq<FastVote>, action_id: u64, voter: Seq<u8>) -> bool {
    exists|i: int|
        0 <= i < votes.len() && votes[i].fast_action == action_id && votes[i].voter@ == voter
}

/// Position of the vote record for this pair; meaningful only when
/// `spec_has_vote` holds, and unique under `VotingLedger::wf`.
pub open spec fn spec_vote_idx(votes: Seq<FastVote>, action_id: u64, voter: Seq<u8>) -> int {
    choose|i: int|
        0 <= i < votes.len() && votes[i].fast_action == action_id && votes[i].voter@ == voter
}

/// The vote record for this pair.
pub open spec fn spec_vote(votes: Seq<FastVote>, action_id: u64, voter: Seq<u8>) -> FastVote {
    votes[spec_vote_idx(votes, action_id, voter)]
}

/// Number of vote records that belong to this action.
pub open spec fn count_votes(votes: Seq<FastVote>, action_id: u64) -> nat
    decreases votes.len(),
{
    if votes.len() == 0 {
        0
    } else {
        count_votes(votes.drop_last(), action_id) + (if votes.last().fast_action == action_id {
            1nat
        } else {
            0nat
        })
    }
}

/// Number of "for" vote records that belong to this action.
pub open spec fn count_votes_for(votes: Seq<FastVote>, action_id: u64) -> nat
    decreases votes.len(),
{
    if votes.len() == 0 {
        0
    } else {
        count_votes_for(votes.drop_last(), action_id) + (if votes.last().fast_action == action_id
            && votes.last().vote_value {
            1nat
        } else {
            0nat
        })
    }
}

/// The keyed record store, as the execution environment guarantees it:
/// one action record per identifier, one vote record per
/// `(action, voter)` pair, creation of an existing key rejected.
pub struct VotingLedger {
    pub actions: Vec<FastAction>,
    pub votes: Vec<FastVote>,
}

impl VotingLedger {
    /// Action identifiers are unique keys.
    pub open spec fn actions_unique(self) -> bool {
        forall|i: int, j: int|
            0 <= i < j < self.actions@.len() ==> self.actions@[i].action_id
                != self.actions@[j].action_id
    }

    /// `(action, voter)` pairs are unique keys: no participant holds two
    /// vote records for one action.
    pub open spec fn votes_unique(self) -> bool {
        forall|i: int, j: int|
            0 <= i < j < self.votes@.len() ==> !(self.votes@[i].fast_action
                == self.votes@[j].fast_action && self.votes@[i].voter@ == self.votes@[j].voter@)
    }

    /// Every stored record is well-formed on its own.
    pub open spec fn records_wf(self) -> bool {
        &&& forall|i: int| 0 <= i < self.actions@.len() ==> (#[trigger] self.actions@[i]).wf()
        &&& forall|i: int| 0 <= i < self.votes@.len() ==> (#[trigger] self.votes@[i]).wf()
    }

    /// Every vote record belongs to an action record that exists.
    pub open spec fn votes_bound(self) -> bool {
        forall|i: int|
            0 <= i < self.votes@.len() ==> spec_has_action(
                self.actions@,
                (#[trigger] self.votes@[i]).fast_action,
            )
    }

    /// The counters on each action record agree exactly with the vote
    /// records in the store: nothing is ever miscounted or double
    /// counted.
    pub open spec fn counters_match(self) -> bool {
        forall|i: int|
            0 <= i < self.actions@.len() ==> (#[trigger] self.actions@[i]).votes_for
                == count_votes_for(self.votes@, self.actions@[i].action_id)
                && self.actions@[i].vote_count == count_votes(
                self.votes@,
                self.actions@[i].action_id,
            )
    }

    /// Invariant of the whole store; every operation preserves it.
    pub open spec fn wf(self) -> bool {
        &&& self.actions_unique()
        &&& self.votes_unique()
        &&& self.records_wf()
        &&& self.votes_bound()
        &&& self.counters_match()
    }

    /// An empty store.
    pub fn new() -> (l: VotingLedger)
        ensures
            l.wf(),
            l.actions@ == Seq::<FastAction>::empty(),
            l.votes@ == Seq::<FastVote>::empty(),
    {
        VotingLedger { actions: Vec::new(), votes: Vec::new() }
    }
}

/// Under unique identifiers, any index holding `action_id` is the one
/// `spec_action_idx` denotes.
pub proof fn lemma_action_idx_is(actions: Seq<FastAction>, action_id: u64, i: int)
    requires
        forall|p: int, q: int|
            0 <= p < q < actions.len() ==> actions[p].action_id != actions[q].action_id,
        0 <= i < actions.len(),
        actions[i].action_id == action_id,
    ensures
        spec_has_action(actions, action_id),
        spec_action_idx(actions, action_id) == i,
        spec_action(actions, action_id) == actions[i],
{
    assert(spec_has_action(actions, action_id));
    let j = spec_action_idx(actions, action_id);
    assert(0 <= j < actions.len() && actions[j].action_id == action_id);
    if i < j {
        assert(actions[i].action_id != actions[j].action_id);
    } else if j < i {
        assert(actions[j].action_id != actions[i].action_id);
    }
}

/// Under unique `(action, voter)` pairs, any index holding the pair is
/// the one `spec_vote_idx` denotes.
pub proof fn lemma_vote_idx_is(votes: Seq<FastVote>, action_id: u64, voter: Seq<u8>, i: int)
    requires
        forall|p: int, q: int|
            0 <= p < q < votes.len() ==> !(votes[p].fast_action == votes[q].fast_action
                && votes[p].voter@ == votes[q].voter@),
        0 <= i < votes.len(),
        votes[i].fast_action == action_id,
        votes[i].voter@ == voter,
    ensures
        spec_has_vote(votes, action_id, voter),
        spec_vote_idx(votes, action_id, voter) == i,
        spec_vote(votes, action_id, voter) == votes[i],
{
    assert(spec_has_vote(votes, action_id, voter));
    let j = spec_vote_idx(votes, action_id, voter);
    assert(0 <= j < votes.len() && votes[j].fast_action == action_id && votes[j].voter@ == voter);
    if i < j {
        assert(!(votes[i].fast_action == votes[j].fast_action && votes[i].voter@
            == votes[j].voter@));
    } else if j < i {
        assert(!(votes[j].fast_action == votes[i].fast_action && votes[j].voter@
            == votes[i].voter@));
    }
}

/// Appending one vote record raises the counts for its action by one and
/// leaves every other action's counts unchanged.
pub proof fn lemma_count_push(votes: Seq<FastVote>, v: FastVote, action_id: u64)
    ensures
        count_votes(votes.push(v), action_id) == count_votes(votes, action_id) + (
        if v.fast_action == action_id {
            1nat
        } else {
            0nat
        }),
        count_votes_for(votes.push(v), action_id) == count_votes_for(votes, action_id) + (
        if v.fast_action == action_id && v.vote_value {
            1nat
        } else {
            0nat
        }),
{
    let s = votes.push(v);
    assert(s.drop_last() =~= votes);
    assert(s.last() == v);
}

/// An action no vote record refers to has counts of zero.
pub proof fn lemma_count_unreferenced(votes: Seq<FastVote>, action_id: u64)
    requires
        forall|i: int| 0 <= i < votes.len() ==> (#[trigger] votes[i]).fast_action != action_id,
    ensures
        count_votes(votes, action_id) == 0,
        count_votes_for(votes, action_id) == 0,
    decreases votes.len(),
{
    if votes.len() > 0 {
        assert(forall|i: int|
            0 <= i < votes.drop_last().len() ==> #[trigger] votes.drop_last()[i] == votes[i]);
        lemma_count_unreferenced(votes.drop_last(), action_id);
        assert(votes.last() == votes[votes.len() - 1]);
    }
}

/// Adding a fresh, empty action record preserves the store invariant.
proof fn lemma_create_preserves_wf(l0: VotingLedger, l1: VotingLedger, action: FastAction)
    requires
        l0.wf(),
        action.wf(),
        action.votes_for == 0,
        action.votes_against == 0,
        action.vote_count == 0,
        !spec_has_action(l0.actions@, action.action_id),
        l1.actions@ == l0.actions@.push(action),
        l1.votes@ == l0.votes@,
    ensures
        l1.wf(),
{
    let n = l0.actions@.len() as int;
    assert(forall|k: int| 0 <= k < n ==> #[trigger] l1.actions@[k] == l0.actions@[k]);
    assert(l1.actions@[n] == action);
    assert forall|k: int| 0 <= k < l0.votes@.len() implies (#[trigger] l0.votes@[k]).fast_action
        != action.action_id by {
        if l0.votes@[k].fast_action == action.action_id {
            assert(spec_has_action(l0.actions@, action.action_id));
        }
    }
    lemma_count_unreferenced(l0.votes@, action.action_id);
    assert forall|p: int, q: int| 0 <= p < q < l1.actions@.len() implies l1.actions@[p].action_id
        != l1.actions@[q].action_id by {
        if q == n {
            if l1.actions@[p].action_id == action.action_id {
                assert(l0.actions@[p].action_id == action.action_id);
                assert(spec_has_action(l0.actions@, action.action_id));
            }
        }
    }
    assert forall|k: int| 0 <= k < l1.votes@.len() implies spec_has_action(
        l1.actions@,
        (#[trigger] l1.votes@[k]).fast_action,
    ) by {
        let w = choose|w: int|
            0 <= w < l0.actions@.len() && l0.actions@[w].action_id == l0.votes@[k].fast_action;
        assert(l1.actions@[w].action_id == l1.votes@[k].fast_action);
    }
    assert forall|k: int| 0 <= k < l1.actions@.len() implies (#[trigger] l1.actions@[k]).votes_for
        == count_votes_for(l1.votes@, l1.actions@[k].action_id) && l1.actions@[k].vote_count
        == count_votes(l1.votes@, l1.actions@[k].action_id) by {
        if k < n {
            assert(l1.actions@[k] == l0.actions@[k]);
        }
    }
}

/// Admitting one vote — appending its record and raising the counters of
/// its action — preserves the store invariant.
proof fn lemma_cast_preserves_wf(
    l0: VotingLedger,
    l1: VotingLedger,
    idx: int,
    a1: FastAction,
    vote: FastVote,
)
    requires
        l0.wf(),
        0 <= idx < l0.actions@.len(),
        vote.fast_action == l0.actions@[idx].action_id,
        vote.wf(),
        !spec_has_vote(l0.votes@, vote.fast_action, vote.voter@),
        l0.actions@[idx].vote_count < MAX_VOTES_PER_ACTION,
        a1 == l0.actions@[idx].spec_after_vote(vote.vote_value),
        a1.wf(),
        l1.actions@ == l0.actions@.update(idx, a1),
        l1.votes@ == l0.votes@.push(vote),
    ensures
        l1.wf(),
{
    let id = vote.fast_action;
    let n = l0.votes@.len() as int;
    let a0 = l0.actions@[idx];
    assert(a0.wf());
    assert(a1.action_id == a0.action_id);
    assert(a1.vote_count == a0.vote_count + 1);
    assert(a1.votes_for == a0.votes_for + (if vote.vote_value {
        1int
    } else {
        0int
    }));
    assert(forall|k: int|
        0 <= k < l1.actions@.len() ==> #[trigger] l1.actions@[k] == (if k == idx {
            a1
        } else {
            l0.actions@[k]
        }));
    assert(forall|k: int|
        0 <= k < l1.actions@.len() ==> (#[trigger] l1.actions@[k]).action_id
            == l0.actions@[k].action_id);
    assert(forall|k: int| 0 <= k < n ==> #[trigger] l1.votes@[k] == l0.votes@[k]);
    assert(l1.votes@[n] == vote);
    assert forall|p: int, q: int| 0 <= p < q < l1.actions@.len() implies l1.actions@[p].action_id
        != l1.actions@[q].action_id by {
        assert(l0.actions@[p].action_id != l0.actions@[q].action_id);
    }
    assert forall|p: int, q: int| 0 <= p < q < l1.votes@.len() implies !(l1.votes@[p].fast_action
        == l1.votes@[q].fast_action && l1.votes@[p].voter@ == l1.votes@[q].voter@) by {
        if q == n {
            if l1.votes@[p].fast_action == vote.fast_action && l1.votes@[p].voter@
                == vote.voter@ {
                assert(spec_has_vote(l0.votes@, vote.fast_action, vote.voter@));
            }
        }
    }
    assert forall|k: int| 0 <= k < l1.votes@.len() implies spec_has_action(
        l1.actions@,
        (#[trigger] l1.votes@[k]).fast_action,
    ) by {
        if k == n {
            assert(l1.actions@[idx].action_id == id);
        } else {
            let w = choose|w: int|
                0 <= w < l0.actions@.len() && l0.actions@[w].action_id == l0.votes@[k].fast_action;
            assert(l1.actions@[w].action_id == l1.votes@[k].fast_action);
        }
    }
    assert forall|k: int| 0 <= k < l1.actions@.len() implies (#[trigger] l1.actions@[k]).votes_for
        == count_votes_for(l1.votes@, l1.actions@[k].action_id) && l1.actions@[k].vote_count
        == count_votes(l1.votes@, l1.actions@[k].action_id) by {
        lemma_count_push(l0.votes@, vote, l1.actions@[k].action_id);
        if k != idx {
            if k < idx {
                assert(l0.actions@[k].action_id != l0.actions@[idx].action_id);
            } else {
                assert(l0.actions@[idx].action_id != l0.actions@[k].action_id);
            }
            assert(l1.actions@[k] == l0.actions@[k]);
        }
    }
}

/// Replacing one action record with one of equal identifier and equal
/// counters — the tally and cancel transitions — preserves the store
/// invariant.
proof fn lemma_terminal_update_preserves_wf(
    l0: VotingLedger,
    l1: VotingLedger,
    idx: int,
    a1: FastAction,
)
    requires
        l0.wf(),
        0 <= idx < l0.actions@.len(),
        a1.wf(),
        a1.action_id == l0.actions@[idx].action_id,
        a1.votes_for == l0.actions@[idx].votes_for,
        a1.vote_count == l0.actions@[idx].vote_count,
        l1.actions@ == l0.actions@.update(idx, a1),
        l1.votes@ == l0.votes@,
    ensures
        l1.wf(),
{
    assert(forall|k: int|
        0 <= k < l1.actions@.len() ==> #[trigger] l1.actions@[k] == (if k == idx {
            a1
        } else {
            l0.actions@[k]
        }));
    assert(forall|k: int|
        0 <= k < l1.actions@.len() ==> (#[trigger] l1.actions@[k]).action_id
            == l0.actions@[k].action_id);
    assert forall|p: int, q: int| 0 <= p < q < l1.actions@.len() implies l1.actions@[p].action_id
        != l1.actions@[q].action_id by {
        assert(l0.actions@[p].action_id != l0.actions@[q].action_id);
    }
    assert forall|k: int| 0 <= k < l1.votes@.len() implies spec_has_action(
        l1.actions@,
        (#[trigger] l1.votes@[k]).fast_action,
    ) by {
        let w = choose|w: int|
            0 <= w < l0.actions@.len() && l0.actions@[w].action_id == l0.votes@[k].fast_action;
        assert(l1.actions@[w].action_id == l1.votes@[k].fast_action);
    }
    assert forall|k: int| 0 <= k < l1.actions@.len() implies (#[trigger] l1.actions@[k]).votes_for
        == count_votes_for(l1.votes@, l1.actions@[k].action_id) && l1.actions@[k].vote_count
        == count_votes(l1.votes@, l1.actions@[k].action_id) by {
        if k != idx {
            assert(l1.actions@[k] == l0.actions@[k]);
        } else {
            assert(l0.actions@[idx].votes_for == count_votes_for(
                l0.votes@,
                l0.actions@[idx].action_id,
            ));
        }
    }
}

/// Which rejection, if any, action creation meets: threshold and hash
/// validation first, then the clock bound, then the duplicate key.
pub open spec fn spec_create_err(
    actions: Seq<FastAction>,
    action_id: u64,
    action_hash: Seq<u8>,
    threshold: u8,
    now: u64,
) -> Option<FastVoteError> {
    if threshold == 0 || threshold > 100 {
        Some(FastVoteError::InvalidThreshold)
    } else if is_zero32(action_hash) {
        Some(FastVoteError::InvalidActionHash)
    } else if now + VOTING_WINDOW_SLOTS > u64::MAX {
        Some(FastVoteError::SlotOverflow)
    } else if spec_has_action(actions, action_id) {
        Some(FastVoteError::DuplicateAction)
    } else {
        None
    }
}

/// Which rejection, if any, a cast meets: the record-local admission
/// checks first, then the duplicate `(action, voter)` key.
pub open spec fn spec_cast_err(
    actions: Seq<FastAction>,
    votes: Seq<FastVote>,
    action_id: u64,
    voter: Seq<u8>,
    voter_commitment: Seq<u8>,
    now: u64,
) -> Option<FastVoteError> {
    match spec_action(actions, action_id).spec_admit_vote_err(voter_commitment, now) {
        Some(e) => Some(e),
        None => if spec_has_vote(votes, action_id, voter) {
            Some(FastVoteError::DuplicateVote)
        } else {
            None
        },
    }
}

impl VotingLedger {
    /// Linear scan for the action record with this identifier; the store
    /// key lookup.
    fn find_action(&self, action_id: u64) -> (r: Option<usize>)
        ensures
            match r {
                Some(i) => i < self.actions@.len() && self.actions@[i as int].action_id
                    == action_id,
                None => !spec_has_action(self.actions@, action_id),
            },
    {
        let mut i: usize = 0;
        while i < self.actions.len()
            invariant
                i <= self.actions@.len(),
                forall|j: int| 0 <= j < i ==> self.actions@[j].action_id != action_id,
            decreases self.actions@.len() - i,
        {
            if self.actions[i].action_id == action_id {
                return Some(i);
            }
            i += 1;
        }
        None
    }

    /// Linear scan for the vote record of this `(action, voter)` pair.
    fn find_vote(&self, action_id: u64, voter: &[u8; 32]) -> (r: Option<usize>)
        ensures
            match r {
                Some(i) => i < self.votes@.len() && self.votes@[i as int].fast_action == action_id
                    && self.votes@[i as int].voter@ == voter@,
                None => !spec_has_vote(self.votes@, action_id, voter@),
            },
    {
        let mut i: usize = 0;
        while i < self.votes.len()
            invariant
                i <= self.votes@.len(),
                forall|j: int|
                    0 <= j < i ==> !(self.votes@[j].fast_action == action_id
                        && self.votes@[j].voter@ == voter@),
            decreases self.votes@.len() - i,
        {
            let v = self.votes[i];
            if v.fast_action == action_id && crate::records::bytes32_eq(&v.voter, voter) {
                return Some(i);
            }
            i += 1;
        }
        None
    }

    /// Creates a new action record under the key `action_id`: validates
    /// the threshold and the hash, fixes the deadline one voting window
    /// after `now`, and stores the record with all counters zero. Fails
    /// on a duplicate key, as the store's create-only semantics demands.
    pub fn create_fast_action(
        &mut self,
        action_id: u64,
        action_hash: [u8; 32],
        threshold: u8,
        description_hash: [u8; 32],
        creator: [u8; 32],
        now: u64,
        bump: u8,
    ) -> (r: Result<FastActionCreated, FastVoteError>)
        requires
            old(self).wf(),
        ensures
            final(self).wf(),
            match spec_create_err(old(self).actions@, action_id, action_hash@, threshold, now) {
                Some(e) => r == Err::<FastActionCreated, FastVoteError>(e) && *final(self) == *old(
                    self,
                ),
                None => {
                    &&& final(self).actions@ == old(self).actions@.push(
                        FastAction::spec_new(
                            action_id,
                            action_hash,
                            threshold,
                            description_hash,
                            creator,
                            now,
                            bump,
                        ),
                    )
                    &&& final(self).votes@ == old(self).votes@
                    &&& r == Ok::<FastActionCreated, FastVoteError>(
                        (FastActionCreated {
                            action_id,
                            action_hash,
                            threshold,
                            deadline_slot: (now + VOTING_WINDOW_SLOTS) as u64,
                        }),
                    )
                },
            },
    {
        let action = match FastAction::new(
            action_id,
            action_hash,
            threshold,
            description_hash,
            creator,
            now,
            bump,
        ) {
            Ok(a) => a,
            Err(e) => {
                return Err(e);
            },
        };
        if self.find_action(action_id).is_some() {
            return Err(FastVoteError::DuplicateAction);
        }
        let ghost l0 = *self;
        self.actions.push(action);
        proof {
            lemma_create_preserves_wf(l0, *self, action);
        }
        Ok(
            FastActionCreated {
                action_id,
                action_hash,
                threshold,
                deadline_slot: action.deadline_slot,
            },
        )
    }

    /// Admits one vote by `voter` against the action `action_id`: checks
    /// the window, the capacity bound and the commitment on the action
    /// record, rejects a second vote by the same participant through the
    /// `(action, voter)` key, then stores the vote record and raises the
    /// counters — all as one atomic step against this store.
    pub fn vote_fast(
        &mut self,
        action_id: u64,
        vote_value: bool,
        voter_commitment: [u8; 32],
        voter: [u8; 32],
        now: u64,
        bump: u8,
    ) -> (r: Result<FastVoteCast, FastVoteError>)
        requires
            old(self).wf(),
            spec_has_action(old(self).actions@, action_id),
        ensures
            final(self).wf(),
            match spec_cast_err(
                old(self).actions@,
                old(self).votes@,
                action_id,
                voter@,
                voter_commitment@,
                now,
            ) {
                Some(e) => r == Err::<FastVoteCast, FastVoteError>(e) && *final(self) == *old(
                    self,
                ),
                None => ({
                    let i = spec_action_idx(old(self).actions@, action_id);
                    &&& final(self).actions@ == old(self).actions@.update(
                        i,
                        old(self).actions@[i].spec_after_vote(vote_value),
                    )
                    &&& final(self).votes@ == old(self).votes@.push(
                        (FastVote {
                            fast_action: action_id,
                            voter,
                            voter_commitment,
                            vote_value,
                            voted_slot: now,
                            bump,
                        }),
                    )
                    &&& r == Ok::<FastVoteCast, FastVoteError>(
                        (FastVoteCast {
                            voter_commitment,
                            vote_count: (old(self).actions@[i].vote_count + 1) as u32,
                        }),
                    )
                }),
            },
    {
        let idx = match self.find_action(action_id) {
            Some(i) => i,
            None => unreached(),
        };
        proof {
            lemma_action_idx_is(self.actions@, action_id, idx as int);
        }
        let mut a = self.actions[idx];
        let (vote, cast_event) = match a.admit_vote(vote_value, voter_commitment, voter, now, bump)
            {
            Ok(p) => p,
            Err(e) => {
                return Err(e);
            },
        };
        if self.find_vote(action_id, &voter).is_some() {
            return Err(FastVoteError::DuplicateVote);
        }
        let ghost l0 = *self;
        self.actions.set(idx, a);
        self.votes.push(vote);
        proof {
            lemma_cast_preserves_wf(l0, *self, idx as int, a, vote);
        }
        Ok(cast_event)
    }

    /// Tallies the action `action_id` once its window has closed and
    /// quorum is met: computes the terminal `Passed`/`Failed` result from
    /// the counters and sets the one-way `executed` flag, atomically
    /// against this store. The finished record is returned to the caller
    /// in the notification for the durable handoff; the store holds the
    /// same terminal state either way.
    pub fn tally_and_commit(&mut self, action_id: u64, now: u64) -> (r: Result<
        FastActionExecuted,
        FastVoteError,
    >)
        requires
            old(self).wf(),
            spec_has_action(old(self).actions@, action_id),
        ensures
            final(self).wf(),
            match spec_action(old(self).actions@, action_id).spec_finalize_err(now) {
                Some(e) => r == Err::<FastActionExecuted, FastVoteError>(e) && *final(self)
                    == *old(self),
                None => ({
                    let i = spec_action_idx(old(self).actions@, action_id);
                    let a0 = old(self).actions@[i];
                    &&& crate::tally::spec_tally(a0.votes_for, a0.votes_against, a0.threshold)
                        == Ok::<VoteResult, FastVoteError>(final(self).actions@[i].result)
                    &&& final(self).actions@ == old(self).actions@.update(
                        i,
                        (FastAction {
                            executed: true,
                            result: final(self).actions@[i].result,
                            ..a0
                        }),
                    )
                    &&& final(self).votes@ == old(self).votes@
                    &&& r == Ok::<FastActionExecuted, FastVoteError>(
                        (FastActionExecuted {
                            action_id: a0.action_id,
                            votes_for: a0.votes_for,
                            votes_against: a0.votes_against,
                            result: final(self).actions@[i].result,
                        }),
                    )
                }),
            },
    {
        let idx = match self.find_action(action_id) {
            Some(i) => i,
            None => unreached(),
        };
        proof {
            lemma_action_idx_is(self.actions@, action_id, idx as int);
        }
        let mut a = self.actions[idx];
        let executed_event = match a.finalize(now) {
            Ok(ev) => ev,
            Err(e) => {
                return Err(e);
            },
        };
        let ghost l0 = *self;
        self.actions.set(idx, a);
        proof {
            lemma_terminal_update_preserves_wf(l0, *self, idx as int, a);
        }
        Ok(executed_event)
    }

    /// Cancels the action `action_id`: only its creator may, and only
    /// while no terminal result exists yet. The record moves to
    /// `Cancelled` and no later cast or tally can touch it.
    pub fn cancel_action(&mut self, action_id: u64, caller: &[u8; 32]) -> (r: Result<
        FastActionCancelled,
        FastVoteError,
    >)
        requires
            old(self).wf(),
            spec_has_action(old(self).actions@, action_id),
        ensures
            final(self).wf(),
            match spec_action(old(self).actions@, action_id).spec_cancel_err(caller@) {
                Some(e) => r == Err::<FastActionCancelled, FastVoteError>(e) && *final(self)
                    == *old(self),
                None => ({
                    let i = spec_action_idx(old(self).actions@, action_id);
                    &&& final(self).actions@ == old(self).actions@.update(
                        i,
                        (FastAction {
                            executed: true,
                            result: VoteResult::Cancelled,
                            ..old(self).actions@[i]
                        }),
                    )
                    &&& final(self).votes@ == old(self).votes@
                    &&& r == Ok::<FastActionCancelled, FastVoteError>(
                        (FastActionCancelled { action_id }),
                    )
                }),
            },
    {
        let idx = match self.find_action(action_id) {
            Some(i) => i,
            None => unreached(),
        };
        proof {
            lemma_action_idx_is(self.actions@, action_id, idx as int);
        }
        let mut a = self.actions[idx];
        let cancelled_event = match a.cancel(caller) {
            Ok(ev) => ev,
            Err(e) => {
                return Err(e);
            },
        };
        let ghost l0 = *self;
        self.actions.set(idx, a);
        proof {
            lemma_terminal_update_preserves_wf(l0, *self, idx as int, a);
        }
        Ok(cancelled_event)
    }

    /// Whether an action record with this identifier exists.
    pub fn has_action(&self, action_id: u64) -> (r: bool)
        ensures
            r == spec_has_action(self.actions@, action_id),
    {
        self.find_action(action_id).is_some()
    }

    /// Reads the action record with this identifier, if it exists.
    pub fn get_action(&self, action_id: u64) -> (r: Option<FastAction>)
        requires
            self.wf(),
        ensures
            match r {
                Some(a) => spec_has_action(self.actions@, action_id) && a == spec_action(
                    self.actions@,
                    action_id,
                ),
                None => !spec_has_action(self.actions@, action_id),
            },
    {
        match self.find_action(action_id) {
            Some(i) => {
                proof {
                    lemma_action_idx_is(self.actions@, action_id, i as int);
                }
                Some(self.actions[i])
            },
            None => None,
        }
    }

    /// Whether `voter` already holds a vote record for this action.
    pub fn has_vote(&self, action_id: u64, voter: &[u8; 32]) -> (r: bool)
        ensures
            r == spec_has_vote(self.votes@, action_id, voter@),
    {
        self.find_vote(action_id, voter).is_some()
    }

    /// Reads the vote record of this `(action, voter)` pair, if it
    /// exists.
    pub fn get_vote(&self, action_id: u64, voter: &[u8; 32]) -> (r: Option<FastVote>)
        requires
            self.wf(),
        ensures
            match r {
                Some(v) => spec_has_vote(self.votes@, action_id, voter@) && v == spec_vote(
                    self.votes@,
                    action_id,
                    voter@,
                ),
                None => !spec_has_vote(self.votes@, action_id, voter@),
            },
    {
        match self.find_vote(action_id, voter) {
            Some(i) => {
                proof {
                    lemma_vote_idx_is(self.votes@, action_id, voter@, i as int);
                }
                Some(self.votes[i])
            },
            None => None,
        }
    }
}

} // verus!
