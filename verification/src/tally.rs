use vstd::prelude::*;

use crate::errors::FastVoteError;
use crate::records::VoteResult;

verus! {

/// What the tally engine decides, as a function of the final counters and
/// the threshold alone.
///
/// The approval percentage is `floor(votes_for * 100 / total)`; a tie at
/// exactly the threshold passes. A counter sum that does not fit the
/// counter type is an overflow error, and a sum of zero cannot pass and
/// is reported as quorum not met.
pub open spec fn spec_tally(votes_for: u32, votes_against: u32, threshold: u8) -> Result<
    VoteResult,
    FastVoteError,
> {
    if votes_for + votes_against > u32::MAX {
        Err(FastVoteError::VoteOverflow)
    } else if votes_for + votes_against == 0 {
        Err(FastVoteError::QuorumNotMet)
    } else if votes_for * 100 / (votes_for + votes_against) >= threshold {
        Ok(VoteResult::Passed)
    } else {
        Ok(VoteResult::Failed)
    }
}

/// Pure tally engine: computes pass or fail from the accumulated counters
/// and the configured threshold. No state is read or written; the result
/// depends on nothing but the three arguments.
pub fn tally(votes_for: u32, votes_against: u32, threshold: u8) -> (r: Result<
    VoteResult,
    FastVoteError,
>)
    ensures
        r == spec_tally(votes_for, votes_against, threshold),
{
    let total = match votes_for.checked_add(votes_against) {
        Some(t) => t,
        None => {
            return Err(FastVoteError::VoteOverflow);
        },
    };
    if total == 0 {
        return Err(FastVoteError::QuorumNotMet);
    }
    let approval_pct: u64 = (votes_for as u64) * 100 / (total as u64);
    if approval_pct >= threshold as u64 {
        Ok(VoteResult::Passed)
    } else {
        Ok(VoteResult::Failed)
    }
}

} // verus!
