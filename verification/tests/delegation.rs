use anchor_lang::prelude::Pubkey;
use kamiyo_fast_voting::pda::{delegate_action, FAST_ACTION_SEED};
use kamiyo_fast_voting::FastVoteError;

#[test]
fn matching_derived_address_is_accepted() {
    let program_id = Pubkey::new_from_array([3u8; 32]);
    let action_id: u64 = 77;
    let (expected, bump) =
        Pubkey::find_program_address(&[&FAST_ACTION_SEED, &action_id.to_le_bytes()], &program_id);
    let r = delegate_action(action_id, &expected.to_bytes(), &program_id.to_bytes());
    assert_eq!(r, Ok(bump));
}

#[test]
fn foreign_address_is_rejected() {
    let program_id = Pubkey::new_from_array([3u8; 32]);
    let (other, _) =
        Pubkey::find_program_address(&[&FAST_ACTION_SEED, &78u64.to_le_bytes()], &program_id);
    let r = delegate_action(77, &other.to_bytes(), &program_id.to_bytes());
    assert_eq!(r, Err(FastVoteError::InvalidPda));
}
