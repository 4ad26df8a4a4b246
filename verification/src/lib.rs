//! A time-boxed voting protocol: actions are created with an approval
//! threshold, accumulate at most one vote per participant inside a fixed
//! window of logical clock ticks, and are then either tallied into a
//! terminal `Passed`/`Failed` result or cancelled by their creator.
//!
//! The state machine itself (creation, vote admission, tallying,
//! cancellation, and the invariants tying the counters to the vote
//! records) is verified. The surrounding execution environment (atomic
//! record storage, clock reads, event transport, and the durable-commit
//! handoff) stays outside the library and hands it plain values.

pub mod errors;
pub mod laws;
pub mod ledger;
pub mod pda;
pub mod records;
pub mod tally;

pub use errors::FastVoteError;
pub use ledger::VotingLedger;
pub use records::{
    FastAction, FastActionCancelled, FastActionCreated, FastActionExecuted, FastVote,
    FastVoteCast, VoteResult, MAX_VOTES_PER_ACTION, MIN_VOTES_FOR_QUORUM, VOTING_WINDOW_SLOTS,
};
