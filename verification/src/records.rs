use vstd::prelude::*;

use crate::errors::FastVoteError;
use crate::tally;

verus! {

/// Length of the voting window in clock ticks: a vote is admitted while
/// `now <= created_slot + VOTING_WINDOW_SLOTS`.
pub const VOTING_WINDOW_SLOTS: u64 = 75;

/// Minimum number of votes that must have been cast before an action can
/// be tallied.
pub const MIN_VOTES_FOR_QUORUM: u32 = 2;

/// Upper bound on the number of votes one action may accumulate.
pub const MAX_VOTES_PER_ACTION: u32 = 10_000;

/// True when every byte of the 32-byte value is zero. A zero value is
/// reserved as "unset": action hashes and voter commitments must not be
/// zero.
pub open spec fn is_zero32(s: Seq<u8>) -> bool {
    forall|i: int| 0 <= i < s.len() ==> s[i] == 0u8
}

/// Compares two 32-byte values.
pub fn bytes32_eq(a: &[u8; 32], b: &[u8; 32]) -> (r: bool)
    ensures
        r <==> a@ == b@,
{
    let mut i: usize = 0;
    while i < 32
        invariant
            0 <= i <= 32,
            forall|j: int| 0 <= j < i ==> a@[j] == b@[j],
        decreases 32 - i,
    {
        if a[i] != b[i] {
            return false;
        }
        i += 1;
    }
    proof {
        assert(a@ =~= b@);
    }
    true
}

/// Tests whether a 32-byte value is all zero.
pub fn bytes32_is_zero(a: &[u8; 32]) -> (r: bool)
    ensures
        r <==> is_zero32(a@),
{
    let mut i: usize = 0;
    while i < 32
        invariant
            0 <= i <= 32,
            forall|j: int| 0 <= j < i ==> a@[j] == 0u8,
        decreases 32 - i,
    {
        if a[i] != 0 {
            return false;
        }
        i += 1;
    }
    true
}

/// Terminal state of an action. `Pending` is the only non-terminal value:
/// an action moves from `Pending` to exactly one of the other three,
/// exactly once.
#[derive(Clone, Copy, Debug, PartialEq, Eq, Structural)]
pub enum VoteResult {
    Pending,
    Passed,
    Failed,
    Cancelled,
}

/// One proposed decision under timed voting.
#[derive(Clone, Copy, Debug)]
pub struct FastAction {
    /// Caller-chosen identifier; unique among the actions in one store.
    pub action_id: u64,
    /// Content fingerprint of the proposed action; never all zero.
    pub action_hash: [u8; 32],
    /// Content fingerprint of the human-readable description.
    pub description_hash: [u8; 32],
    /// Identity of the account that created the action; immutable.
    pub creator: [u8; 32],
    /// Percentage of "for" votes (of all votes cast) required to pass,
    /// in `1..=100`.
    pub threshold: u8,
    pub votes_for: u32,
    pub votes_against: u32,
    /// Always `votes_for + votes_against`.
    pub vote_count: u32,
    pub created_slot: u64,
    /// `created_slot + VOTING_WINDOW_SLOTS`, fixed at creation.
    pub deadline_slot: u64,
    /// One-way flag: set exactly when `result` leaves `Pending`.
    pub executed: bool,
    pub result: VoteResult,
    /// Derivation nonce of the record's storage address; opaque here.
    pub bump: u8,
}

/// One participant's ballot against one action; created once, never
/// mutated.
#[derive(Clone, Copy, Debug)]
pub struct FastVote {
    /// Identifier of the action this vote belongs to.
    pub fast_action: u64,
    /// Identity of the casting participant.
    pub voter: [u8; 32],
    /// Caller-supplied auditable tag; never all zero.
    pub voter_commitment: [u8; 32],
    /// `true` for "for", `false` for "against".
    pub vote_value: bool,
    /// Clock tick at which the vote was admitted.
    pub voted_slot: u64,
    /// Derivation nonce of the record's storage address; opaque here.
    pub bump: u8,
}

/// Notification emitted when an action is created.
#[derive(Clone, Copy, Debug)]
pub struct FastActionCreated {
    pub action_id: u64,
    pub action_hash: [u8; 32],
    pub threshold: u8,
    pub deadline_slot: u64,
}

/// Notification emitted when a vote is admitted.
#[derive(Clone, Copy, Debug)]
pub struct FastVoteCast {
    pub voter_commitment: [u8; 32],
    pub vote_count: u32,
}

/// Notification emitted when an action is tallied.
#[derive(Clone, Copy, Debug)]
pub struct FastActionExecuted {
    pub action_id: u64,
    pub votes_for: u32,
    pub votes_against: u32,
    pub result: VoteResult,
}

/// Notification emitted when an action is cancelled.
#[derive(Clone, Copy, Debug)]
pub struct FastActionCancelled {
    pub action_id: u64,
}

impl FastAction {
    /// Well-formedness of one action record: established by `new`,
    /// preserved by every transition.
    pub open spec fn wf(self) -> bool {
        &&& 1 <= self.threshold <= 100
        &&& !is_zero32(self.action_hash@)
        &&& self.vote_count == self.votes_for + self.votes_against
        &&& self.vote_count <= MAX_VOTES_PER_ACTION
        &&& self.created_slot + VOTING_WINDOW_SLOTS == self.deadline_slot
        &&& (self.executed <==> !(self.result is Pending))
    }

    /// The record `new` builds on success.
    pub open spec fn spec_new(
        action_id: u64,
        action_hash: [u8; 32],
        threshold: u8,
        description_hash: [u8; 32],
        creator: [u8; 32],
        now: u64,
        bump: u8,
    ) -> FastAction {
        FastAction {
            action_id,
            action_hash,
            description_hash,
            creator,
            threshold,
            votes_for: 0,
            votes_against: 0,
            vote_count: 0,
            created_slot: now,
            deadline_slot: (now + VOTING_WINDOW_SLOTS) as u64,
            executed: false,
            result: VoteResult::Pending,
            bump,
        }
    }

    /// Validates the inputs of action creation and builds the fresh
    /// record: all counters zero, result `Pending`, deadline fixed one
    /// voting window after `now`.
    pub fn new(
        action_id: u64,
        action_hash: [u8; 32],
        threshold: u8,
        description_hash: [u8; 32],
        creator: [u8; 32],
        now: u64,
        bump: u8,
    ) -> (r: Result<FastAction, FastVoteError>)
        ensures
            r == (if threshold == 0 || threshold > 100 {
                Err::<FastAction, FastVoteError>(FastVoteError::InvalidThreshold)
            } else if is_zero32(action_hash@) {
                Err::<FastAction, FastVoteError>(FastVoteError::InvalidActionHash)
            } else if now + VOTING_WINDOW_SLOTS > u64::MAX {
                Err::<FastAction, FastVoteError>(FastVoteError::SlotOverflow)
            } else {
                Ok::<FastAction, FastVoteError>(FastAction::spec_new(
                    action_id,
                    action_hash,
                    threshold,
                    description_hash,
                    creator,
                    now,
                    bump,
                ))
            }),
            r matches Ok(a) ==> a.wf() && !a.executed && a.result is Pending,
    {
        if threshold == 0 || threshold > 100 {
            return Err(FastVoteError::InvalidThreshold);
        }
        if bytes32_is_zero(&action_hash) {
            return Err(FastVoteError::InvalidActionHash);
        }
        let deadline_slot = match now.checked_add(VOTING_WINDOW_SLOTS) {
            Some(d) => d,
            None => {
                return Err(FastVoteError::SlotOverflow);
            },
        };
        Ok(FastAction {
            action_id,
            action_hash,
            description_hash,
            creator,
            threshold,
            votes_for: 0,
            votes_against: 0,
            vote_count: 0,
            created_slot: now,
            deadline_slot,
            executed: false,
            result: VoteResult::Pending,
            bump,
        })
    }

    /// Which rejection, if any, vote admission meets on this record.
    /// `None` means the vote is admitted. Duplicate detection is the
    /// store's concern, not this record's.
    pub open spec fn spec_admit_vote_err(
        self,
        voter_commitment: Seq<u8>,
        now: u64,
    ) -> Option<FastVoteError> {
        if self.executed {
            Some(FastVoteError::ActionAlreadyExecuted)
        } else if now > self.deadline_slot {
            Some(FastVoteError::VotingEnded)
        } else if self.vote_count >= MAX_VOTES_PER_ACTION {
            Some(FastVoteError::MaxVotesReached)
        } else if is_zero32(voter_commitment) {
            Some(FastVoteError::InvalidVoterCommitment)
        } else {
            None
        }
    }

    /// The counters after one admitted vote.
    pub open spec fn spec_after_vote(self, vote_value: bool) -> FastAction {
        FastAction {
            votes_for: if vote_value {
                (self.votes_for + 1) as u32
            } else {
                self.votes_for
            },
            votes_against: if vote_value {
                self.votes_against
            } else {
                (self.votes_against + 1) as u32
            },
            vote_count: (self.vote_count + 1) as u32,
            ..self
        }
    }

    /// Admits one vote against this record: checks the window, the
    /// capacity bound and the commitment, then increments exactly one of
    /// the two direction counters and the total. Returns the fresh vote
    /// record and the notification; on rejection the record is unchanged.
    ///
    /// Uniqueness of `(action, voter)` is enforced where vote records are
    /// stored, not here.
    pub fn admit_vote(
        &mut self,
        vote_value: bool,
        voter_commitment: [u8; 32],
        voter: [u8; 32],
        now: u64,
        bump: u8,
    ) -> (r: Result<(FastVote, FastVoteCast), FastVoteError>)
        requires
            old(self).wf(),
        ensures
            final(self).wf(),
            match old(self).spec_admit_vote_err(voter_commitment@, now) {
                Some(e) => r == Err::<(FastVote, FastVoteCast), FastVoteError>(e) && *final(self)
                    == *old(self),
                None => {
                    &&& *final(self) == old(self).spec_after_vote(vote_value)
                    &&& r == Ok::<(FastVote, FastVoteCast), FastVoteError>(
                        (
                            (FastVote {
                                fast_action: old(self).action_id,
                                voter,
                                voter_commitment,
                                vote_value,
                                voted_slot: now,
                                bump,
                            }),
                            (FastVoteCast {
                                voter_commitment,
                                vote_count: (old(self).vote_count + 1) as u32,
                            }),
                        ),
                    )
                },
            },
    {
        if self.executed {
            return Err(FastVoteError::ActionAlreadyExecuted);
        }
        if now > self.deadline_slot {
            return Err(FastVoteError::VotingEnded);
        }
        if self.vote_count >= MAX_VOTES_PER_ACTION {
            return Err(FastVoteError::MaxVotesReached);
        }
        if bytes32_is_zero(&voter_commitment) {
            return Err(FastVoteError::InvalidVoterCommitment);
        }
        if vote_value {
            self.votes_for = self.votes_for + 1;
        } else {
            self.votes_against = self.votes_against + 1;
        }
        self.vote_count = self.vote_count + 1;
        let vote = FastVote {
            fast_action: self.action_id,
            voter,
            voter_commitment,
            vote_value,
            voted_slot: now,
            bump,
        };
        let cast = FastVoteCast { voter_commitment, vote_count: self.vote_count };
        Ok((vote, cast))
    }

    /// Which rejection, if any, the tally transition meets on this
    /// record. `None` means the action is tallied.
    pub open spec fn spec_finalize_err(self, now: u64) -> Option<FastVoteError> {
        if self.executed {
            Some(FastVoteError::ActionAlreadyExecuted)
        } else if now <= self.deadline_slot {
            Some(FastVoteError::VotingNotEnded)
        } else if self.vote_count < MIN_VOTES_FOR_QUORUM {
            Some(FastVoteError::QuorumNotMet)
        } else {
            match tally::spec_tally(self.votes_for, self.votes_against, self.threshold) {
                Ok(_) => None,
                Err(e) => Some(e),
            }
        }
    }

    /// Tallies this record once its window has closed and quorum is met:
    /// computes the terminal result from the counters and the threshold
    /// and sets the one-way `executed` flag. On rejection the record is
    /// unchanged.
    pub fn finalize(&mut self, now: u64) -> (r: Result<FastActionExecuted, FastVoteError>)
        requires
            old(self).wf(),
        ensures
            final(self).wf(),
            match old(self).spec_finalize_err(now) {
                Some(e) => r == Err::<FastActionExecuted, FastVoteError>(e) && *final(self) == *old(
                    self,
                ),
                None => {
                    &&& tally::spec_tally(
                        old(self).votes_for,
                        old(self).votes_against,
                        old(self).threshold,
                    ) == Ok::<VoteResult, FastVoteError>(final(self).result)
                    &&& *final(self) == (FastAction {
                        executed: true,
                        result: final(self).result,
                        ..*old(self)
                    })
                    &&& r == Ok::<FastActionExecuted, FastVoteError>(
                        (FastActionExecuted {
                            action_id: old(self).action_id,
                            votes_for: old(self).votes_for,
                            votes_against: old(self).votes_against,
                            result: final(self).result,
                        }),
                    )
                },
            },
    {
        if self.executed {
            return Err(FastVoteError::ActionAlreadyExecuted);
        }
        if now <= self.deadline_slot {
            return Err(FastVoteError::VotingNotEnded);
        }
        if self.vote_count < MIN_VOTES_FOR_QUORUM {
            return Err(FastVoteError::QuorumNotMet);
        }
        let outcome = match tally::tally(self.votes_for, self.votes_against, self.threshold) {
            Ok(v) => v,
            Err(e) => {
                return Err(e);
            },
        };
        self.result = outcome;
        self.executed = true;
        Ok(FastActionExecuted {
            action_id: self.action_id,
            votes_for: self.votes_for,
            votes_against: self.votes_against,
            result: outcome,
        })
    }

    /// Which rejection, if any, cancellation meets on this record.
    pub open spec fn spec_cancel_err(self, caller: Seq<u8>) -> Option<FastVoteError> {
        if self.creator@ != caller {
            Some(FastVoteError::Unauthorized)
        } else if self.executed {
            Some(FastVoteError::ActionAlreadyExecuted)
        } else {
            None
        }
    }

    /// Cancels this record: only the creator may, and only while no
    /// terminal result exists yet. Irreversible. On rejection the record
    /// is unchanged.
    pub fn cancel(&mut self, caller: &[u8; 32]) -> (r: Result<
        FastActionCancelled,
        FastVoteError,
    >)
        requires
            old(self).wf(),
        ensures
            final(self).wf(),
            match old(self).spec_cancel_err(caller@) {
                Some(e) => r == Err::<FastActionCancelled, FastVoteError>(e) && *final(self)
                    == *old(self),
                None => {
                    &&& *final(self) == (FastAction {
                        executed: true,
                        result: VoteResult::Cancelled,
                        ..*old(self)
                    })
                    &&& r == Ok::<FastActionCancelled, FastVoteError>(
                        (FastActionCancelled { action_id: old(self).action_id }),
                    )
                },
            },
    {
        if !bytes32_eq(&self.creator, caller) {
            return Err(FastVoteError::Unauthorized);
        }
        if self.executed {
            return Err(FastVoteError::ActionAlreadyExecuted);
        }
        self.executed = true;
        self.result = VoteResult::Cancelled;
        Ok(FastActionCancelled { action_id: self.action_id })
    }
}

impl FastVote {
    /// Well-formedness of one vote record.
    pub open spec fn wf(self) -> bool {
        !is_zero32(self.voter_commitment@)
    }
}

} // verus!
