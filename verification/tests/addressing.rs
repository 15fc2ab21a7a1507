use anchor_lang::prelude::Pubkey;
use time_locked_wallet::derive_lock_address;

const PROGRAM_ID: [u8; 32] = [9; 32];

#[test]
fn derivation_matches_the_host_sdk() {
    let owner = [1u8; 32];
    let unlock_timestamp: i64 = 1_700_003_600;
    let (address, bump) =
        derive_lock_address(&PROGRAM_ID, &owner, unlock_timestamp).expect("a bump exists");

    let expected = Pubkey::try_find_program_address(
        &[b"vault", owner.as_ref(), &unlock_timestamp.to_le_bytes()],
        &Pubkey::new_from_array(PROGRAM_ID),
    )
    .expect("a bump exists");
    assert_eq!(address, expected.0.to_bytes());
    assert_eq!(bump, expected.1);
}

#[test]
fn derivation_matches_the_host_sdk_for_times_before_the_epoch() {
    let owner = [4u8; 32];
    let unlock_timestamp: i64 = -12_345;
    let (address, bump) =
        derive_lock_address(&PROGRAM_ID, &owner, unlock_timestamp).expect("a bump exists");

    let expected = Pubkey::try_find_program_address(
        &[b"vault", owner.as_ref(), &unlock_timestamp.to_le_bytes()],
        &Pubkey::new_from_array(PROGRAM_ID),
    )
    .expect("a bump exists");
    assert_eq!(address, expected.0.to_bytes());
    assert_eq!(bump, expected.1);
}

#[test]
fn derivation_is_deterministic_and_input_sensitive() {
    let owner = [1u8; 32];
    let t: i64 = 42;
    let first = derive_lock_address(&PROGRAM_ID, &owner, t).unwrap();
    let second = derive_lock_address(&PROGRAM_ID, &owner, t).unwrap();
    assert_eq!(first, second);

    // Another unlock time or another owner lands elsewhere.
    let other_time = derive_lock_address(&PROGRAM_ID, &owner, t + 1).unwrap();
    assert_ne!(first.0, other_time.0);
    let other_owner = derive_lock_address(&PROGRAM_ID, &[3u8; 32], t).unwrap();
    assert_ne!(first.0, other_owner.0);

    // The derived address is none of the inputs handed in.
    assert_ne!(first.0, owner);
    assert_ne!(first.0, PROGRAM_ID);
}
