use vstd::prelude::*;

use crate::errors::FastVoteError;
use crate::records::bytes32_eq;

verus! {

/// Seed tag under which action records are addressed in the store: the
/// ASCII bytes of `fast_action`.
pub const FAST_ACTION_SEED: [u8; 11] = [102, 97, 115, 116, 95, 97, 99, 116, 105, 111, 110];

/// What the store's address derivation returns for a record addressed by
/// a seed tag and a 64-bit record identifier (encoded little-endian)
/// under a given program: `None` when no derivation nonce yields a valid
/// address, otherwise the 32-byte address and the nonce. The value is a
/// function of the three arguments alone.
pub uninterp spec fn derived_record_address(
    seed_tag: Seq<u8>,
    record_id: u64,
    program_id: Seq<u8>,
) -> Option<(Seq<u8>, u8)>;

/// Relies on Pubkey::try_find_program_address (anchor-lang's re-export of
/// the ledger runtime's address derivation) over the seeds
/// `[seed_tag, record_id.to_le_bytes()]`: the result is deterministic in
/// the seeds and the program id, and `None` only when no derivation
/// nonce yields a valid address.
#[verifier::external_body]
fn find_record_address(seed_tag: &[u8; 11], record_id: u64, program_id: &[u8; 32]) -> (r: Option<
    ([u8; 32], u8),
>)
    ensures
        match r {
            Some(p) => derived_record_address(seed_tag@, record_id, program_id@) == Some(
                (p.0@, p.1),
            ),
            None => derived_record_address(seed_tag@, record_id, program_id@) is None,
        },
{
    let program = anchor_lang::prelude::Pubkey::new_from_array(*program_id);
    let id_bytes = record_id.to_le_bytes();
    match anchor_lang::prelude::Pubkey::try_find_program_address(
        &[seed_tag.as_slice(), &id_bytes],
        &program,
    )
    {
        Some((address, bump)) => Some((address.to_bytes(), bump)),
        None => None,
    }
}

/// Checks that the record address handed in for delegation is the one
/// the store derives for `action_id` under `program_id`, and returns the
/// derivation nonce. The delegation handoff itself — moving the record
/// into the fast execution context — is the environment's work and
/// follows only on `Ok`.
pub fn delegate_action(action_id: u64, pda: &[u8; 32], program_id: &[u8; 32]) -> (r: Result<
    u8,
    FastVoteError,
>)
    ensures
        match r {
            Ok(bump) => derived_record_address(FAST_ACTION_SEED@, action_id, program_id@) == Some(
                (pda@, bump),
            ),
            Err(e) => {
                &&& e == FastVoteError::InvalidPda
                &&& match derived_record_address(FAST_ACTION_SEED@, action_id, program_id@) {
                    Some(p) => p.0 != pda@,
                    None => true,
                }
            },
        },
{
    match find_record_address(&FAST_ACTION_SEED, action_id, program_id) {
        Some((expected, bump)) => {
            if bytes32_eq(&expected, pda) {
                Ok(bump)
            } else {
                Err(FastVoteError::InvalidPda)
            }
        },
        None => Err(FastVoteError::InvalidPda),
    }
}

} // verus!
