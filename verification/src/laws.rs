use vstd::prelude::*;

use crate::errors::FastVoteError;
use crate::ledger::{count_votes, count_votes_for, spec_create_err, spec_has_action, VotingLedger};
use crate::records::{
    is_zero32, FastAction, MAX_VOTES_PER_ACTION, MIN_VOTES_FOR_QUORUM, VOTING_WINDOW_SLOTS,
};
use crate::tally::spec_tally;

verus! {

/// Number of "for" values in a sequence of cast vote values.
pub open spec fn count_true(s: Seq<bool>) -> nat
    decreases s.len(),
{
    if s.len() == 0 {
        0
    } else {
        count_true(s.drop_last()) + (if s.last() {
            1nat
        } else {
            0nat
        })
    }
}

/// The action record left behind by a sequence of admitted votes,
/// oldest first.
pub open spec fn replay_votes(a: FastAction, s: Seq<bool>) -> FastAction
    decreases s.len(),
{
    if s.len() == 0 {
        a
    } else {
        replay_votes(a, s.drop_last()).spec_after_vote(s.last())
    }
}

/// A sequence never holds more "for" values than elements.
pub proof fn lemma_count_true_le(s: Seq<bool>)
    ensures
        count_true(s) <= s.len(),
    decreases s.len(),
{
    if s.len() > 0 {
        lemma_count_true_le(s.drop_last());
    }
}

/// The "for" count of a sequence is the multiplicity of `true` in its
/// multiset, so it is the same for any two orderings of the same votes.
pub proof fn lemma_count_true_multiset(s: Seq<bool>)
    ensures
        count_true(s) == s.to_multiset().count(true),
    decreases s.len(),
{
    broadcast use vstd::seq_lib::group_to_multiset_ensures;
    broadcast use vstd::multiset::group_multiset_axioms;

    if s.len() == 0 {
        assert(!s.contains(true));
    } else {
        let s0 = s.drop_last();
        lemma_count_true_multiset(s0);
        assert(s0.push(s.last()) =~= s);
        assert(s0.push(s.last()).to_multiset() =~= s0.to_multiset().insert(s.last()));
    }
}

/// Counter conservation: in a well-formed store every action holds
/// `vote_count == votes_for + votes_against`, and both counters agree
/// exactly with the vote records the store holds for it.
pub proof fn lemma_counter_conservation(l: VotingLedger, i: int)
    requires
        l.wf(),
        0 <= i < l.actions@.len(),
    ensures
        l.actions@[i].vote_count == l.actions@[i].votes_for + l.actions@[i].votes_against,
        l.actions@[i].vote_count == count_votes(l.votes@, l.actions@[i].action_id),
        l.actions@[i].votes_for == count_votes_for(l.votes@, l.actions@[i].action_id),
{
    assert(l.actions@[i].wf());
}

/// No double vote: a well-formed store holds at most one vote record per
/// `(action, voter)` pair — any two positions holding the same pair
/// coincide.
pub proof fn lemma_no_double_vote(l: VotingLedger, i: int, j: int)
    requires
        l.wf(),
        0 <= i < l.votes@.len(),
        0 <= j < l.votes@.len(),
        l.votes@[i].fast_action == l.votes@[j].fast_action,
        l.votes@[i].voter@ == l.votes@[j].voter@,
    ensures
        i == j,
{
    if i < j {
        assert(!(l.votes@[i].fast_action == l.votes@[j].fast_action && l.votes@[i].voter@
            == l.votes@[j].voter@));
    } else if j < i {
        assert(!(l.votes@[j].fast_action == l.votes@[i].fast_action && l.votes@[j].voter@
            == l.votes@[i].voter@));
    }
}

/// Replaying a sequence of admitted votes adds exactly its "for" count
/// to `votes_for`, the rest to `votes_against`, and its length to
/// `vote_count`; no other field moves.
pub proof fn lemma_replay_counts(a: FastAction, s: Seq<bool>)
    requires
        a.vote_count == a.votes_for + a.votes_against,
        a.vote_count + s.len() <= u32::MAX,
    ensures
        replay_votes(a, s) == (FastAction {
            votes_for: (a.votes_for + count_true(s)) as u32,
            votes_against: (a.votes_against + s.len() - count_true(s)) as u32,
            vote_count: (a.vote_count + s.len()) as u32,
            ..a
        }),
    decreases s.len(),
{
    lemma_count_true_le(s);
    if s.len() == 0 {
    } else {
        let s0 = s.drop_last();
        lemma_count_true_le(s0);
        lemma_replay_counts(a, s0);
    }
}

/// Order independence of the tally: two cast sequences carrying the same
/// multiset of vote values leave the action record — and with it the
/// tally decision — identical, whatever order the votes arrived in.
pub proof fn lemma_tally_order_independence(a: FastAction, s1: Seq<bool>, s2: Seq<bool>)
    requires
        a.vote_count == a.votes_for + a.votes_against,
        a.vote_count + s1.len() <= u32::MAX,
        s1.to_multiset() == s2.to_multiset(),
    ensures
        replay_votes(a, s1) == replay_votes(a, s2),
        spec_tally(
            replay_votes(a, s1).votes_for,
            replay_votes(a, s1).votes_against,
            a.threshold,
        ) == spec_tally(
            replay_votes(a, s2).votes_for,
            replay_votes(a, s2).votes_against,
            a.threshold,
        ),
{
    broadcast use vstd::seq_lib::group_to_multiset_ensures;

    assert(s1.to_multiset().len() == s1.len());
    assert(s2.to_multiset().len() == s2.len());
    assert(s1.len() == s2.len());
    lemma_count_true_multiset(s1);
    lemma_count_true_multiset(s2);
    lemma_replay_counts(a, s1);
    lemma_replay_counts(a, s2);
}

/// Deadline boundary: a cast exactly at the deadline tick is admitted
/// and one tick later is rejected as ended; a tally exactly at the
/// deadline tick is premature and one tick later is no longer rejected
/// for time (only, possibly, for quorum).
pub proof fn lemma_deadline_boundary(a: FastAction)
    requires
        !a.executed,
        a.vote_count < MAX_VOTES_PER_ACTION,
        a.deadline_slot < u64::MAX,
    ensures
        forall|c: Seq<u8>|
            !is_zero32(c) ==> #[trigger] a.spec_admit_vote_err(c, a.deadline_slot) is None,
        forall|c: Seq<u8>|
            #[trigger] a.spec_admit_vote_err(c, (a.deadline_slot + 1) as u64) == Some(
                FastVoteError::VotingEnded,
            ),
        a.spec_finalize_err(a.deadline_slot) == Some(FastVoteError::VotingNotEnded),
        a.spec_finalize_err((a.deadline_slot + 1) as u64) != Some(FastVoteError::VotingNotEnded),
{
}

/// Terminal monotonicity: once `executed` is set, every later cast,
/// tally and cancel against the record is rejected (and, by the
/// operations' contracts, a rejected operation changes nothing).
pub proof fn lemma_terminal_monotonic(
    a: FastAction,
    commitment: Seq<u8>,
    caller: Seq<u8>,
    now: u64,
)
    requires
        a.executed,
    ensures
        a.spec_admit_vote_err(commitment, now) == Some(FastVoteError::ActionAlreadyExecuted),
        a.spec_finalize_err(now) == Some(FastVoteError::ActionAlreadyExecuted),
        a.spec_cancel_err(caller) is Some,
{
}

/// Threshold bound: creation with a threshold of zero or above one
/// hundred is always rejected as invalid, and a threshold within bounds
/// is never the reason a creation fails.
pub proof fn lemma_threshold_bound(
    actions: Seq<FastAction>,
    action_id: u64,
    action_hash: Seq<u8>,
    threshold: u8,
    now: u64,
)
    ensures
        (threshold == 0 || threshold > 100) ==> spec_create_err(
            actions,
            action_id,
            action_hash,
            threshold,
            now,
        ) == Some(FastVoteError::InvalidThreshold),
        (1 <= threshold <= 100 && !is_zero32(action_hash) && now + VOTING_WINDOW_SLOTS
            <= u64::MAX && !spec_has_action(actions, action_id)) ==> spec_create_err(
            actions,
            action_id,
            action_hash,
            threshold,
            now,
        ) is None,
{
}

/// Quorum gate: a tally with fewer than `MIN_VOTES_FOR_QUORUM` votes on
/// an open action whose window has closed is rejected exactly as quorum
/// not met.
pub proof fn lemma_quorum_gate(a: FastAction, now: u64)
    requires
        !a.executed,
        now > a.deadline_slot,
        a.vote_count < MIN_VOTES_FOR_QUORUM,
    ensures
        a.spec_finalize_err(now) == Some(FastVoteError::QuorumNotMet),
{
}

} // verus!
