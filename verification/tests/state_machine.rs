use kamiyo_fast_voting::{
    FastAction, FastVoteError, VoteResult, VotingLedger, MAX_VOTES_PER_ACTION,
    MIN_VOTES_FOR_QUORUM, VOTING_WINDOW_SLOTS,
};

fn ident(n: u8) -> [u8; 32] {
    let mut a = [0u8; 32];
    a[0] = n;
    a
}

fn commitment(n: u8) -> [u8; 32] {
    let mut a = [0u8; 32];
    a[31] = n;
    a
}

fn hash(n: u8) -> [u8; 32] {
    let mut a = [0u8; 32];
    a[15] = n;
    a
}

const T0: u64 = 1_000;

fn ledger_with_action(threshold: u8) -> VotingLedger {
    let mut l = VotingLedger::new();
    l.create_fast_action(1, hash(9), threshold, hash(8), ident(1), T0, 255)
        .expect("creation with valid inputs succeeds");
    l
}

#[test]
fn create_fills_the_record() {
    let mut l = VotingLedger::new();
    let ev = l
        .create_fast_action(42, hash(9), 51, hash(8), ident(1), T0, 254)
        .expect("creation with valid inputs succeeds");
    assert_eq!(ev.action_id, 42);
    assert_eq!(ev.threshold, 51);
    assert_eq!(ev.deadline_slot, T0 + VOTING_WINDOW_SLOTS);
    assert_eq!(ev.action_hash, hash(9));
    let a = l.get_action(42).expect("the record exists");
    assert_eq!(a.action_id, 42);
    assert_eq!(a.creator, ident(1));
    assert_eq!(a.votes_for, 0);
    assert_eq!(a.votes_against, 0);
    assert_eq!(a.vote_count, 0);
    assert_eq!(a.created_slot, T0);
    assert_eq!(a.deadline_slot, T0 + VOTING_WINDOW_SLOTS);
    assert!(!a.executed);
    assert_eq!(a.result, VoteResult::Pending);
    assert_eq!(a.bump, 254);
}

#[test]
fn create_rejects_threshold_zero() {
    let mut l = VotingLedger::new();
    let r = l.create_fast_action(1, hash(9), 0, hash(8), ident(1), T0, 255);
    assert_eq!(r.unwrap_err(), FastVoteError::InvalidThreshold);
}

#[test]
fn create_rejects_threshold_above_hundred() {
    let mut l = VotingLedger::new();
    let r = l.create_fast_action(1, hash(9), 101, hash(8), ident(1), T0, 255);
    assert_eq!(r.unwrap_err(), FastVoteError::InvalidThreshold);
}

#[test]
fn create_accepts_threshold_bounds() {
    let mut l = VotingLedger::new();
    assert!(l.create_fast_action(1, hash(9), 1, hash(8), ident(1), T0, 255).is_ok());
    assert!(l.create_fast_action(2, hash(9), 100, hash(8), ident(1), T0, 255).is_ok());
}

#[test]
fn create_rejects_zero_hash() {
    let mut l = VotingLedger::new();
    let r = l.create_fast_action(1, [0u8; 32], 50, hash(8), ident(1), T0, 255);
    assert_eq!(r.unwrap_err(), FastVoteError::InvalidActionHash);
}

#[test]
fn create_rejects_clock_overflow() {
    let mut l = VotingLedger::new();
    let r = l.create_fast_action(1, hash(9), 50, hash(8), ident(1), u64::MAX, 255);
    assert_eq!(r.unwrap_err(), FastVoteError::SlotOverflow);
}

#[test]
fn create_rejects_duplicate_action() {
    let mut l = ledger_with_action(50);
    let r = l.create_fast_action(1, hash(7), 60, hash(6), ident(2), T0 + 1, 255);
    assert_eq!(r.unwrap_err(), FastVoteError::DuplicateAction);
}

#[test]
fn cast_records_the_vote() {
    let mut l = ledger_with_action(50);
    let ev = l
        .vote_fast(1, true, commitment(5), ident(2), T0 + 3, 253)
        .expect("a first vote inside the window is admitted");
    assert_eq!(ev.vote_count, 1);
    assert_eq!(ev.voter_commitment, commitment(5));
    let v = l.get_vote(1, &ident(2)).expect("the vote record exists");
    assert_eq!(v.fast_action, 1);
    assert_eq!(v.voter, ident(2));
    assert_eq!(v.voter_commitment, commitment(5));
    assert!(v.vote_value);
    assert_eq!(v.voted_slot, T0 + 3);
    assert_eq!(v.bump, 253);
}

#[test]
fn counters_conserved_over_casts() {
    let mut l = ledger_with_action(50);
    let values = [true, false, true, true, false];
    for (i, &v) in values.iter().enumerate() {
        l.vote_fast(1, v, commitment(1), ident(10 + i as u8), T0 + 1, 255)
            .expect("distinct voters inside the window are admitted");
        let a = l.get_action(1).expect("the record exists");
        assert_eq!(a.vote_count, a.votes_for + a.votes_against);
        assert_eq!(a.vote_count as usize, i + 1);
    }
    let a = l.get_action(1).expect("the record exists");
    assert_eq!(a.votes_for, 3);
    assert_eq!(a.votes_against, 2);
}

#[test]
fn cast_rejects_double_vote() {
    let mut l = ledger_with_action(50);
    l.vote_fast(1, true, commitment(1), ident(2), T0 + 1, 255)
        .expect("the first vote is admitted");
    let before = l.get_action(1).expect("the record exists");
    let r = l.vote_fast(1, false, commitment(2), ident(2), T0 + 2, 255);
    assert_eq!(r.unwrap_err(), FastVoteError::DuplicateVote);
    let after = l.get_action(1).expect("the record exists");
    assert_eq!(after.votes_for, before.votes_for);
    assert_eq!(after.votes_against, before.votes_against);
    assert_eq!(after.vote_count, before.vote_count);
    // interleaving other voters changes nothing about the rejection
    l.vote_fast(1, false, commitment(3), ident(3), T0 + 2, 255)
        .expect("another voter is admitted");
    let r = l.vote_fast(1, true, commitment(4), ident(2), T0 + 3, 255);
    assert_eq!(r.unwrap_err(), FastVoteError::DuplicateVote);
}

#[test]
fn cast_rejects_zero_commitment() {
    let mut l = ledger_with_action(50);
    let r = l.vote_fast(1, true, [0u8; 32], ident(2), T0 + 1, 255);
    assert_eq!(r.unwrap_err(), FastVoteError::InvalidVoterCommitment);
}

#[test]
fn cast_deadline_boundary() {
    let deadline = T0 + VOTING_WINDOW_SLOTS;
    let mut l = ledger_with_action(50);
    l.vote_fast(1, true, commitment(1), ident(2), deadline, 255)
        .expect("a cast exactly at the deadline tick is admitted");
    let r = l.vote_fast(1, true, commitment(1), ident(3), deadline + 1, 255);
    assert_eq!(r.unwrap_err(), FastVoteError::VotingEnded);
}

#[test]
fn finalize_deadline_boundary() {
    let deadline = T0 + VOTING_WINDOW_SLOTS;
    let mut l = ledger_with_action(50);
    l.vote_fast(1, true, commitment(1), ident(2), T0 + 1, 255).expect("admitted");
    l.vote_fast(1, false, commitment(2), ident(3), T0 + 1, 255).expect("admitted");
    let r = l.tally_and_commit(1, deadline);
    assert_eq!(r.unwrap_err(), FastVoteError::VotingNotEnded);
    let ev = l
        .tally_and_commit(1, deadline + 1)
        .expect("one tick after the deadline the tally is eligible");
    assert_eq!(ev.votes_for, 1);
    assert_eq!(ev.votes_against, 1);
}

#[test]
fn scenario_pass_by_threshold() {
    let mut l = ledger_with_action(51);
    for (i, v) in [true, true, true, false, false].into_iter().enumerate() {
        l.vote_fast(1, v, commitment(1), ident(10 + i as u8), T0 + 1, 255).expect("admitted");
    }
    let ev = l
        .tally_and_commit(1, T0 + VOTING_WINDOW_SLOTS + 1)
        .expect("quorum of five votes is met");
    assert_eq!(ev.votes_for, 3);
    assert_eq!(ev.votes_against, 2);
    assert_eq!(ev.result, VoteResult::Passed);
    let a = l.get_action(1).expect("the record exists");
    assert!(a.executed);
    assert_eq!(a.result, VoteResult::Passed);
}

#[test]
fn scenario_fail_by_threshold() {
    let mut l = ledger_with_action(70);
    for (i, v) in [true, true, true, false, false].into_iter().enumerate() {
        l.vote_fast(1, v, commitment(1), ident(10 + i as u8), T0 + 1, 255).expect("admitted");
    }
    let ev = l
        .tally_and_commit(1, T0 + VOTING_WINDOW_SLOTS + 1)
        .expect("quorum of five votes is met");
    assert_eq!(ev.result, VoteResult::Failed);
}

#[test]
fn scenario_quorum_not_met() {
    assert_eq!(MIN_VOTES_FOR_QUORUM, 2);
    let mut l = ledger_with_action(50);
    l.vote_fast(1, true, commitment(1), ident(2), T0 + 1, 255).expect("admitted");
    let r = l.tally_and_commit(1, T0 + VOTING_WINDOW_SLOTS + 1);
    assert_eq!(r.unwrap_err(), FastVoteError::QuorumNotMet);
    let a = l.get_action(1).expect("the record exists");
    assert!(!a.executed);
    assert_eq!(a.result, VoteResult::Pending);
}

#[test]
fn scenario_cancellation_precedence() {
    let mut l = ledger_with_action(50);
    l.vote_fast(1, true, commitment(1), ident(2), T0 + 1, 255).expect("admitted");
    l.vote_fast(1, false, commitment(2), ident(3), T0 + 1, 255).expect("admitted");
    let ev = l
        .cancel_action(1, &ident(1))
        .expect("the creator may cancel before the tally");
    assert_eq!(ev.action_id, 1);
    let a = l.get_action(1).expect("the record exists");
    assert!(a.executed);
    assert_eq!(a.result, VoteResult::Cancelled);
    let r = l.tally_and_commit(1, T0 + VOTING_WINDOW_SLOTS + 1);
    assert_eq!(r.unwrap_err(), FastVoteError::ActionAlreadyExecuted);
}

#[test]
fn cancel_rejects_non_creator() {
    let mut l = ledger_with_action(50);
    let r = l.cancel_action(1, &ident(2));
    assert_eq!(r.unwrap_err(), FastVoteError::Unauthorized);
    let a = l.get_action(1).expect("the record exists");
    assert!(!a.executed);
}

#[test]
fn cancel_allowed_after_deadline_before_tally() {
    let mut l = ledger_with_action(50);
    let ev = l.cancel_action(1, &ident(1)).expect("no deadline check guards cancel");
    assert_eq!(ev.action_id, 1);
    assert_eq!(l.get_action(1).expect("the record exists").result, VoteResult::Cancelled);
}

#[test]
fn terminal_state_blocks_every_transition() {
    let mut l = ledger_with_action(50);
    l.vote_fast(1, true, commitment(1), ident(2), T0 + 1, 255).expect("admitted");
    l.vote_fast(1, false, commitment(2), ident(3), T0 + 1, 255).expect("admitted");
    l.tally_and_commit(1, T0 + VOTING_WINDOW_SLOTS + 1).expect("tallied");
    let before = l.get_action(1).expect("the record exists");
    let r = l.vote_fast(1, true, commitment(3), ident(4), T0 + 1, 255);
    assert_eq!(r.unwrap_err(), FastVoteError::ActionAlreadyExecuted);
    let r = l.tally_and_commit(1, T0 + VOTING_WINDOW_SLOTS + 2);
    assert_eq!(r.unwrap_err(), FastVoteError::ActionAlreadyExecuted);
    let r = l.cancel_action(1, &ident(1));
    assert_eq!(r.unwrap_err(), FastVoteError::ActionAlreadyExecuted);
    let after = l.get_action(1).expect("the record exists");
    assert_eq!(after.votes_for, before.votes_for);
    assert_eq!(after.votes_against, before.votes_against);
    assert_eq!(after.vote_count, before.vote_count);
    assert_eq!(after.executed, before.executed);
    assert_eq!(after.result, before.result);
}

#[test]
fn tally_is_order_independent() {
    let orders: [&[bool]; 3] = [
        &[true, true, true, false, false],
        &[false, true, false, true, true],
        &[true, false, true, false, true],
    ];
    let mut outcomes = Vec::new();
    for order in orders {
        let mut l = ledger_with_action(51);
        for (i, &v) in order.iter().enumerate() {
            l.vote_fast(1, v, commitment(1), ident(10 + i as u8), T0 + 1, 255)
                .expect("admitted");
        }
        let ev = l.tally_and_commit(1, T0 + VOTING_WINDOW_SLOTS + 1).expect("tallied");
        outcomes.push((ev.votes_for, ev.votes_against, ev.result));
    }
    assert_eq!(outcomes[0], outcomes[1]);
    assert_eq!(outcomes[0], outcomes[2]);
    assert_eq!(outcomes[0], (3, 2, VoteResult::Passed));
}

#[test]
fn max_votes_bound_is_enforced() {
    // A record already at capacity rejects the next vote before touching
    // any counter.
    let mut a = FastAction {
        action_id: 1,
        action_hash: hash(9),
        description_hash: hash(8),
        creator: ident(1),
        threshold: 50,
        votes_for: MAX_VOTES_PER_ACTION,
        votes_against: 0,
        vote_count: MAX_VOTES_PER_ACTION,
        created_slot: T0,
        deadline_slot: T0 + VOTING_WINDOW_SLOTS,
        executed: false,
        result: VoteResult::Pending,
        bump: 255,
    };
    let r = a.admit_vote(true, commitment(1), ident(2), T0 + 1, 255);
    assert_eq!(r.unwrap_err(), FastVoteError::MaxVotesReached);
    assert_eq!(a.vote_count, MAX_VOTES_PER_ACTION);
    assert_eq!(a.votes_for, MAX_VOTES_PER_ACTION);
}
