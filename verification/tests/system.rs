use std::str::FromStr;

use anchor_lang::prelude::Pubkey;
use unbalanced_transfer_poc::address::{escrow_seed_list, system_program_id};
use unbalanced_transfer_poc::system::{
    invoke_signed, process_transfer, read_transfer_lamports, transfer_instruction, AccountMeta,
    Instruction,
};
use unbalanced_transfer_poc::{Address, ProgramError, SystemAccount};

fn alice() -> Address {
    Address::new([1u8; 32])
}

fn bob() -> Address {
    Address::new([2u8; 32])
}

#[test]
fn transfer_instruction_is_the_system_programs() {
    let ix = transfer_instruction(&alice(), &bob(), 1_200);
    assert_eq!(ix.program_id, system_program_id());
    assert_eq!(
        ix.accounts,
        vec![
            AccountMeta { key: alice(), is_signer: true, is_writable: true },
            AccountMeta { key: bob(), is_signer: false, is_writable: true },
        ]
    );
    assert_eq!(ix.data, vec![2u8, 0, 0, 0, 0xb0, 0x04, 0, 0, 0, 0, 0, 0]);
}

#[test]
fn transfer_instruction_data_for_the_extremes() {
    assert_eq!(
        transfer_instruction(&alice(), &bob(), 0).data,
        vec![2u8, 0, 0, 0, 0, 0, 0, 0, 0, 0, 0, 0]
    );
    assert_eq!(
        transfer_instruction(&alice(), &bob(), u64::MAX).data,
        vec![2u8, 0, 0, 0, 255, 255, 255, 255, 255, 255, 255, 255]
    );
    assert_eq!(
        transfer_instruction(&alice(), &bob(), 0x0102_0304_0506_0708).data,
        vec![2u8, 0, 0, 0, 8, 7, 6, 5, 4, 3, 2, 1]
    );
}

#[test]
fn transfer_lamports_read_back() {
    let amounts: [u64; 4] = [0, 1, 1_200, u64::MAX];
    for amount in amounts {
        let ix = transfer_instruction(&alice(), &bob(), amount);
        assert_eq!(read_transfer_lamports(&ix.data), Some(amount));
    }
}

#[test]
fn other_data_is_no_transfer() {
    assert_eq!(read_transfer_lamports(&[]), None);
    assert_eq!(read_transfer_lamports(&[2, 0, 0, 0]), None);
    assert_eq!(read_transfer_lamports(&[1, 0, 0, 0, 5, 0, 0, 0, 0, 0, 0, 0]), None);
    assert_eq!(read_transfer_lamports(&[2, 1, 0, 0, 5, 0, 0, 0, 0, 0, 0, 0]), None);
    assert_eq!(read_transfer_lamports(&[2, 0, 1, 0, 5, 0, 0, 0, 0, 0, 0, 0]), None);
    assert_eq!(read_transfer_lamports(&[2, 0, 0, 1, 5, 0, 0, 0, 0, 0, 0, 0]), None);
    assert_eq!(read_transfer_lamports(&[2, 0, 0, 0, 5, 0, 0, 0, 0, 0, 0, 0, 0]), None);
    assert_eq!(read_transfer_lamports(&[2, 0, 0, 0, 5, 0, 0, 0, 0, 0, 0, 0]), Some(5));
}

#[test]
fn process_transfer_moves_what_the_instruction_says() {
    let ix = transfer_instruction(&alice(), &bob(), 30);
    let mut from = SystemAccount::new(alice(), 100, true);
    let mut to = SystemAccount::new(bob(), 5, false);
    assert_eq!(process_transfer(&ix, &mut from, &mut to, true), Ok(()));
    assert_eq!((from.lamports, to.lamports), (70, 35));
    assert_eq!(
        process_transfer(&ix, &mut from, &mut to, false),
        Err(ProgramError::MissingRequiredSignature)
    );
    assert_eq!((from.lamports, to.lamports), (70, 35));
    assert_eq!(process_transfer(&ix, &mut from, &mut to, true), Ok(()));
    assert_eq!(process_transfer(&ix, &mut from, &mut to, true), Ok(()));
    assert_eq!(
        process_transfer(&ix, &mut from, &mut to, true),
        Err(ProgramError::InsufficientFunds)
    );
    assert_eq!((from.lamports, to.lamports), (10, 95));
}

#[test]
fn process_transfer_refuses_what_is_no_transfer_between_the_two() {
    let good = transfer_instruction(&alice(), &bob(), 30);
    let mut from = SystemAccount::new(alice(), 100, true);
    let mut to = SystemAccount::new(bob(), 5, false);

    let reversed = transfer_instruction(&bob(), &alice(), 30);
    assert_eq!(
        process_transfer(&reversed, &mut from, &mut to, true),
        Err(ProgramError::InvalidInstruction)
    );

    let elsewhere = Instruction { program_id: alice(), ..good.clone() };
    assert_eq!(
        process_transfer(&elsewhere, &mut from, &mut to, true),
        Err(ProgramError::InvalidInstruction)
    );

    let mut short = good.clone();
    short.accounts.pop();
    assert_eq!(
        process_transfer(&short, &mut from, &mut to, true),
        Err(ProgramError::InvalidInstruction)
    );

    let mut unsigned = good.clone();
    unsigned.accounts[0].is_signer = false;
    assert_eq!(
        process_transfer(&unsigned, &mut from, &mut to, true),
        Err(ProgramError::InvalidInstruction)
    );

    let mut other = good.clone();
    other.data[0] = 3;
    assert_eq!(
        process_transfer(&other, &mut from, &mut to, true),
        Err(ProgramError::InvalidInstruction)
    );
    assert_eq!((from.lamports, to.lamports), (100, 5));
}

#[test]
fn invoke_signed_takes_a_signature_or_the_right_seeds() {
    let program = Pubkey::from_str("HV1tYVquon8bA4ZSbVLF361qrQ1vcnev2yhnbHyCPQWJ").unwrap();
    let (key, bump) =
        Pubkey::find_program_address(&[b"prefix", &[1u8; 32], b"escrow"], &program);
    let escrow_key = Address::new(key.to_bytes());
    let seeds = escrow_seed_list(&alice(), bump);
    let wrong = escrow_seed_list(&bob(), bump);

    let mut escrow = SystemAccount::new(escrow_key, 50, false);
    let mut user = SystemAccount::new(alice(), 1, false);
    let ix = transfer_instruction(&escrow_key, &alice(), 50);

    assert_eq!(
        invoke_signed(&ix, &mut escrow, &mut user, None),
        Err(ProgramError::MissingRequiredSignature)
    );
    assert_eq!(
        invoke_signed(&ix, &mut escrow, &mut user, Some(&wrong)),
        Err(ProgramError::MissingRequiredSignature)
    );
    assert_eq!((escrow.lamports, user.lamports), (50, 1));
    assert_eq!(invoke_signed(&ix, &mut escrow, &mut user, Some(&seeds)), Ok(()));
    assert_eq!((escrow.lamports, user.lamports), (0, 51));

    let mut payer = SystemAccount::new(bob(), 9, true);
    let pay = transfer_instruction(&bob(), &alice(), 9);
    assert_eq!(invoke_signed(&pay, &mut payer, &mut user, None), Ok(()));
    assert_eq!((payer.lamports, user.lamports), (0, 60));
}
