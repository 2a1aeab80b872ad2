use std::str::FromStr;

use anchor_lang::prelude::Pubkey;
use unbalanced_transfer_poc::address::{
    derive_address, escrow_seed_list, escrow_tag_bytes, is_derived_from, matches_derivation,
    prefix_seed_list, prefix_tag_bytes, program_id, system_program_id,
};
use unbalanced_transfer_poc::Address;

fn real_program_id() -> Pubkey {
    Pubkey::from_str("HV1tYVquon8bA4ZSbVLF361qrQ1vcnev2yhnbHyCPQWJ").unwrap()
}

fn owner() -> Address {
    Address::new([7u8; 32])
}

#[test]
fn tags_are_the_ascii_texts() {
    assert_eq!(prefix_tag_bytes(), b"prefix".to_vec());
    assert_eq!(escrow_tag_bytes(), b"escrow".to_vec());
}

#[test]
fn program_id_is_the_declared_one() {
    assert_eq!(program_id().to_bytes(), real_program_id().to_bytes());
}

#[test]
fn system_program_id_is_all_zero() {
    assert_eq!(system_program_id().to_bytes(), [0u8; 32]);
    assert_eq!(
        system_program_id().to_bytes(),
        anchor_lang::system_program::ID.to_bytes()
    );
}

#[test]
fn address_round_trips_and_compares() {
    let mut bytes = [0u8; 32];
    for (i, b) in bytes.iter_mut().enumerate() {
        *b = i as u8;
    }
    let a = Address::new(bytes);
    assert_eq!(a.to_bytes(), bytes);
    assert_eq!(a.to_vec(), bytes.to_vec());
    assert!(a.same_as(&Address::new(bytes)));
    let mut other = bytes;
    other[31] = 0;
    assert!(!a.same_as(&Address::new(other)));
    other = bytes;
    other[0] = 9;
    assert!(!a.same_as(&Address::new(other)));
}

#[test]
fn prefix_seed_list_is_tag_owner_amount_bump() {
    let seeds = prefix_seed_list(&owner(), 0x0102_0304_0506_0708, 254);
    assert_eq!(
        seeds,
        vec![
            b"prefix".to_vec(),
            vec![7u8; 32],
            vec![8u8, 7, 6, 5, 4, 3, 2, 1],
            vec![254u8],
        ]
    );
}

#[test]
fn prefix_seed_list_encodes_small_amounts_in_eight_bytes() {
    let seeds = prefix_seed_list(&owner(), 1, 0);
    assert_eq!(seeds[2], vec![1u8, 0, 0, 0, 0, 0, 0, 0]);
    let seeds = prefix_seed_list(&owner(), u64::MAX, 0);
    assert_eq!(seeds[2], vec![255u8; 8]);
}

#[test]
fn escrow_seed_list_is_tag_owner_tag_bump() {
    let seeds = escrow_seed_list(&owner(), 3);
    assert_eq!(
        seeds,
        vec![b"prefix".to_vec(), vec![7u8; 32], b"escrow".to_vec(), vec![3u8]]
    );
}

#[test]
fn derive_address_agrees_with_the_ledger_scheme() {
    let amount: u64 = 1_000;
    let (expected, bump) = Pubkey::find_program_address(
        &[b"prefix", &[7u8; 32], &amount.to_le_bytes()],
        &real_program_id(),
    );
    let seeds = prefix_seed_list(&owner(), amount, bump);
    let derived = derive_address(&seeds, &program_id()).unwrap();
    assert_eq!(derived.to_bytes(), expected.to_bytes());
    assert_ne!(derived.to_bytes(), program_id().to_bytes());
    assert!(is_derived_from(&derived, &seeds));
    assert!(!is_derived_from(&owner(), &seeds));
}

#[test]
fn derive_address_depends_on_the_program() {
    let (_, bump) =
        Pubkey::find_program_address(&[b"prefix", &[7u8; 32], b"escrow"], &real_program_id());
    let seeds = escrow_seed_list(&owner(), bump);
    let here = derive_address(&seeds, &program_id());
    let there = derive_address(&seeds, &system_program_id());
    assert!(here.is_some());
    assert_ne!(here, there);
}

#[test]
fn derive_address_refuses_bumps_above_the_first_valid_one() {
    let mut checked: u32 = 0;
    for amount in 0u64..64 {
        let (_, bump) = Pubkey::find_program_address(
            &[b"prefix", &[7u8; 32], &amount.to_le_bytes()],
            &real_program_id(),
        );
        for higher in (bump as u16 + 1)..=255 {
            let seeds = prefix_seed_list(&owner(), amount, higher as u8);
            assert_eq!(derive_address(&seeds, &program_id()), None);
            checked += 1;
        }
    }
    assert!(checked > 0);
}

#[test]
fn derive_address_refuses_a_seed_that_is_too_long() {
    let seeds = vec![vec![1u8; 33], vec![255u8]];
    assert_eq!(derive_address(&seeds, &program_id()), None);
}

#[test]
fn derive_address_refuses_too_many_seeds() {
    let seeds = vec![vec![1u8]; 17];
    assert_eq!(derive_address(&seeds, &program_id()), None);
}

#[test]
fn matches_derivation_wants_the_same_address() {
    let a = owner();
    assert!(matches_derivation(&Some(a), &a));
    assert!(!matches_derivation(&Some(Address::new([8u8; 32])), &a));
    assert!(!matches_derivation(&None, &a));
}
