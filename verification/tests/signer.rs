use anchor_lang::prelude::Pubkey as OutsidePubkey;

use solana_timelock::pubkey::Pubkey;
use solana_timelock::signer::{check_signer, DelegatedSigner};

fn key(byte: u8) -> Pubkey {
    Pubkey { bytes: [byte; 32] }
}

fn outside(k: &Pubkey) -> OutsidePubkey {
    OutsidePubkey::new_from_array(k.bytes)
}

#[test]
fn derive_is_the_program_address_of_the_timelock_and_its_offset() {
    let program = key(7);
    let timelock = key(10);
    let mut derived = 0;
    let mut refused = 0;
    for bump in 0..=255u8 {
        let expected = OutsidePubkey::create_program_address(&[&timelock.bytes, &[bump]], &outside(&program)).ok();
        let signer = DelegatedSigner::derive(&program, &timelock, bump);
        match (signer, expected) {
            (Some(s), Some(address)) => {
                assert_eq!(s.timelock, timelock);
                assert_eq!(s.bump, bump);
                assert_eq!(s.address.bytes, address.to_bytes());
                assert_ne!(s.address, timelock);
                assert_ne!(s.address, program);
                derived += 1;
            },
            (None, None) => refused += 1,
            (s, e) => panic!("offset {}: {:?} against {:?}", bump, s, e),
        }
    }
    // some offsets derive an address and some do not
    assert!(derived > 0);
    assert!(refused > 0);
}

#[test]
fn derive_gives_the_same_signer_every_time() {
    let found = DelegatedSigner::find(&key(7), &key(10)).expect("a signer is found");
    let first = DelegatedSigner::derive(&key(7), &key(10), found.bump);
    let second = DelegatedSigner::derive(&key(7), &key(10), found.bump);
    assert_eq!(first, second);
    assert_eq!(first, Some(found));
}

#[test]
fn derive_depends_on_program_timelock_and_offset() {
    let found = DelegatedSigner::find(&key(7), &key(10)).expect("a signer is found");
    let other_program = DelegatedSigner::derive(&key(8), &key(10), found.bump);
    let other_timelock = DelegatedSigner::derive(&key(7), &key(11), found.bump);
    assert_ne!(other_program.map(|s| s.address), Some(found.address));
    assert_ne!(other_timelock.map(|s| s.address), Some(found.address));
    for bump in 0..=255u8 {
        if bump != found.bump {
            assert_ne!(DelegatedSigner::derive(&key(7), &key(10), bump).map(|s| s.address), Some(found.address));
        }
    }
}

#[test]
fn find_is_the_found_program_address_of_the_timelock() {
    for byte in [1u8, 10, 200] {
        let program = key(7);
        let timelock = key(byte);
        let (address, bump) = OutsidePubkey::find_program_address(&[&timelock.bytes], &outside(&program));
        let signer = DelegatedSigner::find(&program, &timelock).expect("a signer is found");
        assert_eq!(signer.timelock, timelock);
        assert_eq!(signer.bump, bump);
        assert_eq!(signer.address.bytes, address.to_bytes());
        assert_eq!(DelegatedSigner::derive(&program, &timelock, signer.bump), Some(signer));
    }
}

#[test]
fn check_signer_compares_the_derived_identity() {
    let signer = DelegatedSigner { timelock: key(10), bump: 3, address: key(40) };
    assert!(check_signer(&Some(signer), &key(40)));
    assert!(!check_signer(&Some(signer), &key(41)));
    assert!(!check_signer(&Some(signer), &key(10)));
    assert!(!check_signer(&None, &key(40)));
}

#[test]
fn identities_are_equal_when_all_bytes_agree() {
    let mut bytes = [5u8; 32];
    assert_eq!(Pubkey::new_from_array(bytes), key(5));
    assert_eq!(key(5).to_bytes(), bytes);
    bytes[31] = 6;
    assert_ne!(Pubkey::new_from_array(bytes), key(5));
    bytes[31] = 5;
    bytes[0] = 6;
    assert_ne!(Pubkey::new_from_array(bytes), key(5));
    bytes[0] = 5;
    bytes[17] = 0;
    assert_ne!(Pubkey::new_from_array(bytes), key(5));
}
