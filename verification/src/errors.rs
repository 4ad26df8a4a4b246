use vstd::prelude::*;

verus! {

/// Every way an operation on the voting state machine can be rejected.
///
/// All failures are synchronous and leave the records untouched: an
/// operation either applies in full or returns one of these and changes
/// nothing.
#[derive(Clone, Copy, Debug, PartialEq, Eq, Structural)]
pub enum FastVoteError {
    /// `create` was given a threshold outside `1..=100`.
    InvalidThreshold,
    /// `create` was given an all-zero action hash.
    InvalidActionHash,
    /// Adding the voting window to the current tick would overflow the clock.
    SlotOverflow,
    /// The record address handed to `delegate` does not match the one
    /// derived from the action identifier.
    InvalidPda,
    /// A vote arrived strictly after the action's deadline tick.
    VotingEnded,
    /// A tally was attempted at or before the deadline tick.
    VotingNotEnded,
    /// The action already holds a terminal result; no further transition
    /// is possible.
    ActionAlreadyExecuted,
    /// A vote-counter addition would overflow.
    VoteOverflow,
    /// The action already holds the maximum number of votes.
    MaxVotesReached,
    /// A vote carried an all-zero voter commitment.
    InvalidVoterCommitment,
    /// A tally was attempted with fewer votes than the quorum requires.
    QuorumNotMet,
    /// Someone other than the creator tried to cancel the action.
    Unauthorized,
    /// An action record with this identifier already exists.
    DuplicateAction,
    /// This voter already holds a vote record for this action.
    DuplicateVote,
}

} // verus!
