use streamflow_sdk::pda::find_escrow_account;
use streamflow_sdk::pda::Pubkey;

fn key(fill: u8) -> Pubkey {
    Pubkey::new_from_array([fill; 32])
}

#[test]
fn escrow_account_is_derived_deterministically() {
    let pid = key(7);
    let seed = [1u8; 32];
    let first = find_escrow_account(&seed, &pid).expect("derivation should succeed");
    let second = find_escrow_account(&seed, &pid).expect("derivation should succeed");
    assert_eq!(first.0.to_bytes(), second.0.to_bytes());
    assert_eq!(first.1, second.1);
}

#[test]
fn escrow_account_differs_from_its_inputs() {
    let pid = key(7);
    let seed = [1u8; 32];
    let (escrow, _bump) = find_escrow_account(&seed, &pid).expect("derivation should succeed");
    assert_ne!(escrow.to_bytes(), pid.to_bytes());
    assert_ne!(escrow.to_bytes(), seed);
}

#[test]
fn escrow_account_depends_on_seed_and_program() {
    let pid = key(7);
    let (for_seed1, _) =
        find_escrow_account(&[1u8; 32], &pid).expect("derivation should succeed");
    let (for_seed2, _) =
        find_escrow_account(&[2u8; 32], &pid).expect("derivation should succeed");
    assert_ne!(for_seed1.to_bytes(), for_seed2.to_bytes());
    let (other_pid, _) =
        find_escrow_account(&[1u8; 32], &key(9)).expect("derivation should succeed");
    assert_ne!(for_seed1.to_bytes(), other_pid.to_bytes());
}

#[test]
fn matches_the_solana_derivation_with_the_strm_prefix() {
    let pid_bytes = [7u8; 32];
    let seed = [1u8; 32];
    let expected = anchor_lang::prelude::Pubkey::find_program_address(
        &[b"strm", &seed],
        &anchor_lang::prelude::Pubkey::new_from_array(pid_bytes),
    );
    let (escrow, bump) = find_escrow_account(&seed, &Pubkey::new_from_array(pid_bytes))
        .expect("derivation should succeed");
    assert_eq!(escrow.to_bytes(), expected.0.to_bytes());
    assert_eq!(bump, expected.1);
}

#[test]
fn overlong_seed_is_rejected_not_panicking() {
    let pid = key(7);
    let seed = [1u8; 33];
    assert!(find_escrow_account(&seed, &pid).is_none());
}
