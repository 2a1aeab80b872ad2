//! The system program's transfer: the instruction that asks for it, and
//! what it does to the two balances.
//!
//! A handler moves a balance by issuing an instruction to the system
//! program. The instruction is built by the ledger's own library; what the
//! ledger then does with it is modelled here on plain accounts.

use vstd::prelude::*;
use vstd::bytes::{
    lemma_auto_spec_u64_to_from_le_bytes, spec_u64_from_le_bytes, spec_u64_to_le_bytes,
    u64_from_le_bytes,
};
use vstd::slice::slice_subrange;
use anchor_lang::prelude::Pubkey;
use anchor_lang::solana_program::system_instruction;
use crate::address::{
    derives, is_derived_from, program_address, program_id_bytes, seeds_view, system_program_bytes,
    system_program_id, Address,
};
use crate::error::ProgramError;
use crate::state::SystemAccount;

verus! {

/// An account as an instruction names it.
#[derive(Clone, Copy, Debug, PartialEq, Eq)]
pub struct AccountMeta {
    /// The account's address.
    pub key: Address,
    /// Whether the instruction needs the account's signature.
    pub is_signer: bool,
    /// Whether the instruction may change the account.
    pub is_writable: bool,
}

/// An instruction to a program: whom it addresses, the accounts it names,
/// and its data.
#[derive(Clone, Debug, PartialEq, Eq)]
pub struct Instruction {
    /// The program that is to carry the instruction out.
    pub program_id: Address,
    /// The accounts, in the order that the program expects.
    pub accounts: Vec<AccountMeta>,
    /// What the program is to do, in its own encoding.
    pub data: Vec<u8>,
}

/// The data of a transfer of `lamports`: the number of the transfer among
/// the system program's instructions, which is two, in four bytes, then the
/// amount in eight, each with the least significant byte first.
pub open spec fn transfer_data(lamports: u64) -> Seq<u8> {
    seq![2u8, 0u8, 0u8, 0u8] + spec_u64_to_le_bytes(lamports)
}

/// The amount that `data` asks to transfer, where it is the data of a
/// transfer.
pub open spec fn transfer_lamports(data: Seq<u8>) -> Option<u64> {
    if data.len() == 12 && data[0] == 2 && data[1] == 0 && data[2] == 0 && data[3] == 0 {
        Some(spec_u64_from_le_bytes(data.subrange(4, 12)))
    } else {
        None
    }
}

/// Whether `ix` is addressed to the system program and names `from`, as a
/// signer, and `to`, in this order and no other account.
pub open spec fn names_transfer(ix: Instruction, from: Seq<u8>, to: Seq<u8>) -> bool {
    &&& ix.program_id@ == system_program_bytes()
    &&& ix.accounts@.len() == 2
    &&& ix.accounts@[0].key@ == from
    &&& ix.accounts@[0].is_signer
    &&& ix.accounts@[1].key@ == to
}

/// Calls `system_instruction::transfer` and hands its result on field by
/// field. Trusted: the instruction is addressed to the system program, it
/// names the source as a writable signer and then the target as writable
/// and no signer, and its data is the transfer's number and the amount.
#[verifier::external_body]
fn system_transfer(from: &Address, to: &Address, lamports: u64) -> (ix: Instruction)
    ensures
        ix.program_id@ == system_program_bytes(),
        ix.accounts@.len() == 2,
        ix.accounts@[0] == (AccountMeta { key: *from, is_signer: true, is_writable: true }),
        ix.accounts@[1] == (AccountMeta { key: *to, is_signer: false, is_writable: true }),
        ix.data@ == transfer_data(lamports),
{
    let from_key = Pubkey::new_from_array(from.bytes);
    let to_key = Pubkey::new_from_array(to.bytes);
    let ix = system_instruction::transfer(&from_key, &to_key, lamports);
    let accounts = ix.accounts.iter().map(|meta| AccountMeta {
        key: Address { bytes: meta.pubkey.to_bytes() },
        is_signer: meta.is_signer,
        is_writable: meta.is_writable,
    }).collect();
    Instruction { program_id: Address { bytes: ix.program_id.to_bytes() }, accounts, data: ix.data }
}

/// The instruction that asks the system program to move `lamports` from
/// `from` to `to`.
pub fn transfer_instruction(from: &Address, to: &Address, lamports: u64) -> (ix: Instruction)
    ensures
        names_transfer(ix, from@, to@),
        ix.accounts@[0] == (AccountMeta { key: *from, is_signer: true, is_writable: true }),
        ix.accounts@[1] == (AccountMeta { key: *to, is_signer: false, is_writable: true }),
        ix.data@ == transfer_data(lamports),
        transfer_lamports(ix.data@) == Some(lamports),
{
    let ix = system_transfer(from, to, lamports);
    proof {
        lemma_auto_spec_u64_to_from_le_bytes();
        assert(ix.data@.subrange(4, 12) =~= spec_u64_to_le_bytes(lamports));
    }
    ix
}

/// Reads the amount out of the data of a transfer; `None` for any other
/// data.
pub fn read_transfer_lamports(data: &[u8]) -> (r: Option<u64>)
    ensures
        r == transfer_lamports(data@),
{
    if data.len() != 12 {
        return None;
    }
    if data[0] != 2 || data[1] != 0 || data[2] != 0 || data[3] != 0 {
        return None;
    }
    Some(u64_from_le_bytes(slice_subrange(data, 4, 12)))
}

/// Whether `account` may be the source of a transfer: it signed the
/// transaction, or the program signs for it with seeds that derive its
/// address.
pub open spec fn has_authority(account: SystemAccount, signer_seeds: Option<Seq<Seq<u8>>>) -> bool {
    account.is_signer || (signer_seeds matches Some(seeds) && derives(
        program_address(seeds, program_id_bytes()),
        account.key@,
    ))
}

/// Decides whether `account` may be the source of a transfer.
pub fn check_authority(account: &SystemAccount, signer_seeds: Option<&Vec<Vec<u8>>>) -> (r: bool)
    ensures
        r == has_authority(
            *account,
            match signer_seeds {
                Some(seeds) => Some(seeds_view(*seeds)),
                None => None,
            },
        ),
{
    if account.is_signer {
        return true;
    }
    match signer_seeds {
        Some(seeds) => is_derived_from(&account.key, seeds),
        None => false,
    }
}

/// What a transfer of `lamports` from `from` to `to` comes to: the two
/// accounts afterwards, or the reason why nothing moved.
pub open spec fn transfer_outcome(
    from: SystemAccount,
    to: SystemAccount,
    lamports: u64,
    authorized: bool,
) -> Result<(SystemAccount, SystemAccount), ProgramError> {
    if !authorized {
        Err(ProgramError::MissingRequiredSignature)
    } else if from.lamports < lamports {
        Err(ProgramError::InsufficientFunds)
    } else if to.lamports + lamports > u64::MAX {
        Err(ProgramError::ArithmeticOverflow)
    } else {
        Ok(
            (
                from.with_lamports((from.lamports - lamports) as u64),
                to.with_lamports((to.lamports + lamports) as u64),
            ),
        )
    }
}

/// Moves `lamports` from `from` to `to`, as the system program does. The
/// source needs authority, `authorized`, and the funds; the target must be
/// able to hold the sum. On an error neither account changes.
pub fn transfer(
    from: &mut SystemAccount,
    to: &mut SystemAccount,
    lamports: u64,
    authorized: bool,
) -> (r: Result<(), ProgramError>)
    ensures
        match transfer_outcome(*old(from), *old(to), lamports, authorized) {
            Ok((from_after, to_after)) => r is Ok && *final(from) == from_after && *final(to)
                == to_after,
            Err(e) => r == Err::<(), ProgramError>(e) && *final(from) == *old(from) && *final(to)
                == *old(to),
        },
{
    if !authorized {
        return Err(ProgramError::MissingRequiredSignature);
    }
    if from.lamports < lamports {
        return Err(ProgramError::InsufficientFunds);
    }
    match to.lamports.checked_add(lamports) {
        Some(sum) => {
            from.lamports = from.lamports - lamports;
            to.lamports = sum;
            Ok(())
        },
        None => Err(ProgramError::ArithmeticOverflow),
    }
}

/// What carrying out `ix` on `from` and `to` comes to. An instruction that
/// is no transfer between these two accounts is refused; a transfer does
/// what `transfer_outcome` says of its amount.
pub open spec fn process_outcome(
    ix: Instruction,
    from: SystemAccount,
    to: SystemAccount,
    authorized: bool,
) -> Result<(SystemAccount, SystemAccount), ProgramError> {
    if !names_transfer(ix, from.key@, to.key@) {
        Err(ProgramError::InvalidInstruction)
    } else {
        match transfer_lamports(ix.data@) {
            Some(lamports) => transfer_outcome(from, to, lamports, authorized),
            None => Err(ProgramError::InvalidInstruction),
        }
    }
}

/// Carries out a transfer instruction on the two accounts that it names,
/// given whether the source has authority. On an error neither account
/// changes.
pub fn process_transfer(
    ix: &Instruction,
    from: &mut SystemAccount,
    to: &mut SystemAccount,
    authorized: bool,
) -> (r: Result<(), ProgramError>)
    ensures
        match process_outcome(*ix, *old(from), *old(to), authorized) {
            Ok((from_after, to_after)) => r is Ok && *final(from) == from_after && *final(to)
                == to_after,
            Err(e) => r == Err::<(), ProgramError>(e) && *final(from) == *old(from) && *final(to)
                == *old(to),
        },
{
    if !ix.program_id.same_as(&system_program_id()) || ix.accounts.len() != 2 {
        return Err(ProgramError::InvalidInstruction);
    }
    if !ix.accounts[0].key.same_as(&from.key) || !ix.accounts[0].is_signer
        || !ix.accounts[1].key.same_as(&to.key) {
        return Err(ProgramError::InvalidInstruction);
    }
    match read_transfer_lamports(ix.data.as_slice()) {
        Some(lamports) => transfer(from, to, lamports, authorized),
        None => Err(ProgramError::InvalidInstruction),
    }
}

/// Issues `ix` with the program signing by `signer_seeds`, where there are
/// any: the source's authority is settled first, from its signature or
/// from the seeds, and then the transfer is carried out.
pub fn invoke_signed(
    ix: &Instruction,
    from: &mut SystemAccount,
    to: &mut SystemAccount,
    signer_seeds: Option<&Vec<Vec<u8>>>,
) -> (r: Result<(), ProgramError>)
    ensures
        match process_outcome(
            *ix,
            *old(from),
            *old(to),
            has_authority(
                *old(from),
                match signer_seeds {
                    Some(seeds) => Some(seeds_view(*seeds)),
                    None => None,
                },
            ),
        ) {
            Ok((from_after, to_after)) => r is Ok && *final(from) == from_after && *final(to)
                == to_after,
            Err(e) => r == Err::<(), ProgramError>(e) && *final(from) == *old(from) && *final(to)
                == *old(to),
        },
{
    let authorized = check_authority(from, signer_seeds);
    process_transfer(ix, from, to, authorized)
}

} // verus!
