//! The two instructions, the account sets they take, and the checks that an
//! account set has to pass before an instruction touches it.
//!
//! An instruction either runs to its end or leaves every account as it was.

use vstd::prelude::*;
use crate::address::{
    derives, escrow_seed_list, escrow_seeds, is_derived_from, prefix_seed_list, prefix_seeds,
    program_address, program_id_bytes, system_program_bytes, system_program_id, Address,
};
use crate::error::{ErrorCode, ProgramError};
use crate::state::{Lifecycle, Prefix, PrefixAccount, SystemAccount};
use crate::system::{invoke_signed, transfer_instruction};

verus! {

/// The accounts of `initialize`.
#[derive(Clone, Copy, Debug, PartialEq, Eq)]
pub struct Initialize {
    /// Who funds the escrow. Has to sign.
    pub payer: SystemAccount,
    /// The account to create, derived from the payer and the amount.
    pub prefix_account: PrefixAccount,
    /// The account to fund, derived from the payer.
    pub escrow_account: SystemAccount,
    /// The address handed in as that of the system program.
    pub system_program: Address,
}

/// The accounts of `close`.
#[derive(Clone, Copy, Debug, PartialEq, Eq)]
pub struct Close {
    /// Who submits and pays for the transaction. Has to sign, and gets
    /// nothing. Where this is the user's own account, the balance that
    /// counts is the one under `user`, and this entry follows it.
    pub payer: SystemAccount,
    /// Who receives both balances. Not asked to sign.
    pub user: SystemAccount,
    /// The account to close, derived from the user and the recorded amount.
    pub prefix_account: PrefixAccount,
    /// The account to drain, derived from the user.
    pub escrow_account: SystemAccount,
    /// The address handed in as that of the system program.
    pub system_program: Address,
}

impl Initialize {
    /// The first check that the account set fails, in the order in which
    /// the checks are made, or `None` where it passes them all.
    pub open spec fn constraint_violation(
        self,
        prefix_bump: u8,
        escrow_bump: u8,
        amount: u64,
    ) -> Option<ProgramError> {
        if !self.payer.is_signer {
            Some(ProgramError::AccountNotSigner)
        } else if !derives(
            program_address(prefix_seeds(self.payer.key@, amount, prefix_bump), program_id_bytes()),
            self.prefix_account.key@,
        ) {
            Some(ProgramError::ConstraintSeeds)
        } else if self.prefix_account.status != Lifecycle::Uninitialized {
            Some(ProgramError::AccountAlreadyInUse)
        } else if !derives(
            program_address(escrow_seeds(self.payer.key@, escrow_bump), program_id_bytes()),
            self.escrow_account.key@,
        ) {
            Some(ProgramError::ConstraintSeeds)
        } else if self.system_program@ != system_program_bytes() {
            Some(ProgramError::InvalidProgramId)
        } else {
            None
        }
    }

    /// Checks the account set against the arguments of `initialize`: the
    /// payer signed, both derived addresses are the ones handed in, the
    /// prefix account is still to be created, and the system program is
    /// the real one.
    pub fn validate(&self, prefix_bump: u8, escrow_bump: u8, amount: u64) -> (r: Result<
        (),
        ProgramError,
    >)
        ensures
            match self.constraint_violation(prefix_bump, escrow_bump, amount) {
                Some(e) => r == Err::<(), ProgramError>(e),
                None => r is Ok,
            },
    {
        if !self.payer.is_signer {
            return Err(ProgramError::AccountNotSigner);
        }
        let prefix_list = prefix_seed_list(&self.payer.key, amount, prefix_bump);
        if !is_derived_from(&self.prefix_account.key, &prefix_list) {
            return Err(ProgramError::ConstraintSeeds);
        }
        match self.prefix_account.status {
            Lifecycle::Uninitialized => {},
            _ => {
                return Err(ProgramError::AccountAlreadyInUse);
            },
        }
        let escrow_list = escrow_seed_list(&self.payer.key, escrow_bump);
        if !is_derived_from(&self.escrow_account.key, &escrow_list) {
            return Err(ProgramError::ConstraintSeeds);
        }
        if !self.system_program.same_as(&system_program_id()) {
            return Err(ProgramError::InvalidProgramId);
        }
        Ok(())
    }
}

impl Close {
    /// The first check that the account set fails, in the order in which
    /// the checks are made, or `None` where it passes them all. Nothing
    /// here asks whether `user` signed.
    pub open spec fn constraint_violation(self, escrow_bump: u8) -> Option<ProgramError> {
        if !self.payer.is_signer {
            Some(ProgramError::AccountNotSigner)
        } else if self.prefix_account.status != Lifecycle::Funded {
            Some(ProgramError::AccountNotInitialized)
        } else if !derives(
            program_address(
                prefix_seeds(
                    self.user.key@,
                    self.prefix_account.data.amount,
                    self.prefix_account.data.bump,
                ),
                program_id_bytes(),
            ),
            self.prefix_account.key@,
        ) {
            Some(ProgramError::ConstraintSeeds)
        } else if !derives(
            program_address(escrow_seeds(self.user.key@, escrow_bump), program_id_bytes()),
            self.escrow_account.key@,
        ) {
            Some(ProgramError::ConstraintSeeds)
        } else if self.system_program@ != system_program_bytes() {
            Some(ProgramError::InvalidProgramId)
        } else {
            None
        }
    }

    /// Checks the account set against the argument of `close`: the payer
    /// signed, the prefix account holds a record, its address is derived
    /// from the user and from the amount and bump in that record, the
    /// escrow's address is derived from the user, and the system program is
    /// the real one.
    pub fn validate(&self, escrow_bump: u8) -> (r: Result<(), ProgramError>)
        ensures
            match self.constraint_violation(escrow_bump) {
                Some(e) => r == Err::<(), ProgramError>(e),
                None => r is Ok,
            },
    {
        if !self.payer.is_signer {
            return Err(ProgramError::AccountNotSigner);
        }
        match self.prefix_account.status {
            Lifecycle::Funded => {},
            _ => {
                return Err(ProgramError::AccountNotInitialized);
            },
        }
        let prefix_list = prefix_seed_list(
            &self.user.key,
            self.prefix_account.data.amount,
            self.prefix_account.data.bump,
        );
        if !is_derived_from(&self.prefix_account.key, &prefix_list) {
            return Err(ProgramError::ConstraintSeeds);
        }
        let escrow_list = escrow_seed_list(&self.user.key, escrow_bump);
        if !is_derived_from(&self.escrow_account.key, &escrow_list) {
            return Err(ProgramError::ConstraintSeeds);
        }
        if !self.system_program.same_as(&system_program_id()) {
            return Err(ProgramError::InvalidProgramId);
        }
        Ok(())
    }
}

/// What `initialize` comes to on an account set: the accounts afterwards,
/// or the error with which it stops.
///
/// Past the checks, the payer must hold `amount` and the escrow must be able
/// to take it. Then the prefix account holds the record and counts as
/// funded, the payer has `amount` less, the escrow has `amount` more, and
/// nothing else differs.
pub open spec fn initialize_outcome(
    pre: Initialize,
    prefix_bump: u8,
    escrow_bump: u8,
    amount: u64,
) -> Result<Initialize, ProgramError> {
    if let Some(e) = pre.constraint_violation(prefix_bump, escrow_bump, amount) {
        Err(e)
    } else if pre.payer.lamports < amount {
        Err(ProgramError::InsufficientFunds)
    } else if pre.escrow_account.lamports + amount > u64::MAX {
        Err(ProgramError::ArithmeticOverflow)
    } else {
        Ok(
            Initialize {
                payer: pre.payer.with_lamports((pre.payer.lamports - amount) as u64),
                prefix_account: PrefixAccount {
                    status: Lifecycle::Funded,
                    data: Prefix { bump: prefix_bump, amount },
                    ..pre.prefix_account
                },
                escrow_account: pre.escrow_account.with_lamports(
                    (pre.escrow_account.lamports + amount) as u64,
                ),
                ..pre
            },
        )
    }
}

/// Creates the prefix record of the payer for `amount` and moves `amount`
/// from the payer into the escrow account.
///
/// Fails, and changes nothing, where the account set does not pass
/// `Initialize::validate`, where the payer holds less than `amount`, or
/// where the escrow cannot hold the sum.
pub fn initialize(accounts: &mut Initialize, prefix_bump: u8, escrow_bump: u8, amount: u64) -> (r:
    Result<(), ProgramError>)
    ensures
        match initialize_outcome(*old(accounts), prefix_bump, escrow_bump, amount) {
            Ok(post) => r is Ok && *final(accounts) == post,
            Err(e) => r == Err::<(), ProgramError>(e) && *final(accounts) == *old(accounts),
        },
{
    match accounts.validate(prefix_bump, escrow_bump, amount) {
        Err(e) => {
            return Err(e);
        },
        Ok(()) => {},
    }
    let mut work = *accounts;
    work.prefix_account.status = Lifecycle::Funded;
    work.prefix_account.data.bump = prefix_bump;
    work.prefix_account.data.amount = amount;

    let ix = transfer_instruction(&work.payer.key, &work.escrow_account.key, amount);
    match invoke_signed(&ix, &mut work.payer, &mut work.escrow_account, None) {
        Err(e) => {
            return Err(e);
        },
        Ok(()) => {},
    }
    *accounts = work;
    Ok(())
}

/// The sum of a balance and an amount reclaimed for it, where it fits.
pub open spec fn credited(balance: u64, reclaimed: u64) -> Option<u64> {
    if balance + reclaimed <= u64::MAX {
        Some((balance + reclaimed) as u64)
    } else {
        None
    }
}

/// Adds a reclaimed balance to the balance of the account that receives
/// it: the sum, or `NumericalOverflow` where the sum is out of range.
pub fn credit(balance: u64, reclaimed: u64) -> (r: Result<u64, ProgramError>)
    ensures
        match credited(balance, reclaimed) {
            Some(sum) => r == Ok::<u64, ProgramError>(sum),
            None => r == Err::<u64, ProgramError>(
                ProgramError::Custom(ErrorCode::NumericalOverflow),
            ),
        },
{
    match balance.checked_add(reclaimed) {
        Some(sum) => Ok(sum),
        None => Err(ProgramError::Custom(ErrorCode::NumericalOverflow)),
    }
}

/// The payer's entry after `close`. The payer gets nothing. Only where the
/// payer is the user's own account, one account under two roles, does its
/// entry show that account's new balance.
pub open spec fn payer_after_close(pre: Close, user_lamports: u64) -> SystemAccount {
    if pre.payer.key@ == pre.user.key@ {
        pre.payer.with_lamports(user_lamports)
    } else {
        pre.payer
    }
}

/// What `close` comes to on an account set: the accounts afterwards, or the
/// error with which it stops.
///
/// Past the checks, the user must be able to take the prefix account's
/// balance, and then the escrow's as well. Then the prefix account is empty
/// and closed, the escrow is empty, the user has both balances more, and
/// nothing else differs: a payer who is not the user gets nothing.
pub open spec fn close_outcome(pre: Close, escrow_bump: u8) -> Result<Close, ProgramError> {
    if let Some(e) = pre.constraint_violation(escrow_bump) {
        Err(e)
    } else if pre.user.lamports + pre.prefix_account.lamports > u64::MAX {
        Err(ProgramError::Custom(ErrorCode::NumericalOverflow))
    } else if pre.user.lamports + pre.prefix_account.lamports + pre.escrow_account.lamports
        > u64::MAX {
        Err(ProgramError::ArithmeticOverflow)
    } else {
        let total = (pre.user.lamports + pre.prefix_account.lamports
            + pre.escrow_account.lamports) as u64;
        Ok(
            Close {
                payer: payer_after_close(pre, total),
                user: pre.user.with_lamports(total),
                prefix_account: PrefixAccount {
                    lamports: 0,
                    status: Lifecycle::Closed,
                    ..pre.prefix_account
                },
                escrow_account: pre.escrow_account.with_lamports(0),
                system_program: pre.system_program,
            },
        )
    }
}

/// Closes the prefix account and drains the escrow account, both into
/// `user`.
///
/// In this order: the prefix account's balance is read and set to zero; it
/// is added to the user's, with `NumericalOverflow` where the sum does not
/// fit; then all that the escrow holds at this moment is transferred to the
/// user, the program signing for the escrow with the escrow's own seeds.
/// Whatever fails, no account changes.
pub fn close(accounts: &mut Close, escrow_bump: u8) -> (r: Result<(), ProgramError>)
    ensures
        match close_outcome(*old(accounts), escrow_bump) {
            Ok(post) => r is Ok && *final(accounts) == post,
            Err(e) => r == Err::<(), ProgramError>(e) && *final(accounts) == *old(accounts),
        },
{
    match accounts.validate(escrow_bump) {
        Err(e) => {
            return Err(e);
        },
        Ok(()) => {},
    }
    let mut work = *accounts;
    let signer_seeds = escrow_seed_list(&work.user.key, escrow_bump);

    let reclaimed = work.prefix_account.lamports;
    work.prefix_account.lamports = 0;
    work.prefix_account.status = Lifecycle::Closed;
    match credit(work.user.lamports, reclaimed) {
        Ok(sum) => {
            work.user.lamports = sum;
        },
        Err(e) => {
            return Err(e);
        },
    }

    let ix = transfer_instruction(
        &work.escrow_account.key,
        &work.user.key,
        work.escrow_account.lamports,
    );
    match invoke_signed(&ix, &mut work.escrow_account, &mut work.user, Some(&signer_seeds)) {
        Err(e) => {
            return Err(e);
        },
        Ok(()) => {},
    }
    if work.payer.key.same_as(&work.user.key) {
        work.payer.lamports = work.user.lamports;
    }
    *accounts = work;
    Ok(())
}

/// What `close_signed` comes to: `AccountNotSigner` where the user did not
/// sign, and what `close` comes to where the user did.
pub open spec fn close_signed_outcome(pre: Close, escrow_bump: u8) -> Result<Close, ProgramError> {
    if !pre.user.is_signer {
        Err(ProgramError::AccountNotSigner)
    } else {
        close_outcome(pre, escrow_bump)
    }
}

/// `close` as it should have been: the user, who receives the funds and
/// from whose address both accounts are derived, has to sign. An account
/// set whose user did not sign is refused before anything else is looked
/// at, and changes nothing.
pub fn close_signed(accounts: &mut Close, escrow_bump: u8) -> (r: Result<(), ProgramError>)
    ensures
        match close_signed_outcome(*old(accounts), escrow_bump) {
            Ok(post) => r is Ok && *final(accounts) == post,
            Err(e) => r == Err::<(), ProgramError>(e) && *final(accounts) == *old(accounts),
        },
{
    if !accounts.user.is_signer {
        return Err(ProgramError::AccountNotSigner);
    }
    close(accounts, escrow_bump)
}

} // verus!
