//! What holds of the two instructions together, proved from the outcomes
//! that their contracts state.

use vstd::prelude::*;
use crate::error::{ErrorCode, ProgramError};
use crate::instructions::{
    close_outcome, close_signed_outcome, initialize_outcome, Close, Initialize,
};
use crate::state::{Lifecycle, Prefix, SystemAccount, PREFIX_LEN};
use crate::system::{
    names_transfer, process_outcome, transfer_data, transfer_outcome, Instruction,
};
use vstd::bytes::{
    lemma_auto_spec_u64_to_from_le_bytes, spec_u64_from_le_bytes, spec_u64_to_le_bytes,
};

verus! {

/// Where `initialize` succeeds, the payer holds exactly `amount` less, the
/// escrow exactly `amount` more, and the record holds `amount` and the bump
/// of the prefix account; the addresses and the prefix account's balance
/// are as before.
pub proof fn initialize_moves_amount(
    pre: Initialize,
    prefix_bump: u8,
    escrow_bump: u8,
    amount: u64,
)
    requires
        initialize_outcome(pre, prefix_bump, escrow_bump, amount) is Ok,
    ensures
        ({
            let post = initialize_outcome(pre, prefix_bump, escrow_bump, amount)->Ok_0;
            &&& post.payer.lamports == pre.payer.lamports - amount
            &&& post.escrow_account.lamports == pre.escrow_account.lamports + amount
            &&& post.prefix_account.data.amount == amount
            &&& post.prefix_account.data.bump == prefix_bump
            &&& post.prefix_account.status == Lifecycle::Funded
            &&& post.prefix_account.lamports == pre.prefix_account.lamports
            &&& post.payer.key == pre.payer.key
            &&& post.prefix_account.key == pre.prefix_account.key
            &&& post.escrow_account.key == pre.escrow_account.key
        }),
{
}

/// `initialize` cannot be repeated: on the accounts that one successful
/// call left, a second call for the same amount fails whatever bumps it is
/// given, and with the same bumps it fails because the prefix account is
/// in use. A failed call changes nothing, so the accounts stay as the
/// first call left them.
pub proof fn initialize_twice_fails(
    pre: Initialize,
    prefix_bump: u8,
    escrow_bump: u8,
    amount: u64,
    second_prefix_bump: u8,
    second_escrow_bump: u8,
)
    requires
        initialize_outcome(pre, prefix_bump, escrow_bump, amount) is Ok,
    ensures
        ({
            let mid = initialize_outcome(pre, prefix_bump, escrow_bump, amount)->Ok_0;
            &&& initialize_outcome(mid, second_prefix_bump, second_escrow_bump, amount) is Err
            &&& initialize_outcome(mid, prefix_bump, escrow_bump, amount) == Err::<
                Initialize,
                ProgramError,
            >(ProgramError::AccountAlreadyInUse)
        }),
{
}

/// A prefix account that is funded or closed is never funded anew:
/// `initialize` fails on it.
pub proof fn initialize_needs_fresh_account(
    pre: Initialize,
    prefix_bump: u8,
    escrow_bump: u8,
    amount: u64,
)
    requires
        pre.prefix_account.status != Lifecycle::Uninitialized,
    ensures
        initialize_outcome(pre, prefix_bump, escrow_bump, amount) is Err,
{
}

/// The account set with which `user` closes the pair that `funded` holds,
/// the transaction being paid for by `payer`.
pub open spec fn close_accounts(funded: Initialize, payer: SystemAccount, user: SystemAccount) -> Close {
    Close {
        payer,
        user,
        prefix_account: funded.prefix_account,
        escrow_account: funded.escrow_account,
        system_program: funded.system_program,
    }
}

/// After a successful `initialize`, the payer of that call can close the
/// pair with the same escrow bump: unless a balance would overflow, `close`
/// succeeds, the prefix account and the escrow are empty, and the user holds
/// what all three held together.
pub proof fn close_after_initialize_drains_both(
    pre: Initialize,
    prefix_bump: u8,
    escrow_bump: u8,
    amount: u64,
)
    requires
        initialize_outcome(pre, prefix_bump, escrow_bump, amount) is Ok,
        pre.payer.lamports + pre.prefix_account.lamports + pre.escrow_account.lamports
            <= u64::MAX,
    ensures
        ({
            let mid = initialize_outcome(pre, prefix_bump, escrow_bump, amount)->Ok_0;
            let accounts = close_accounts(mid, mid.payer, mid.payer);
            let outcome = close_outcome(accounts, escrow_bump);
            &&& outcome is Ok
            &&& outcome->Ok_0.prefix_account.lamports == 0
            &&& outcome->Ok_0.escrow_account.lamports == 0
            &&& outcome->Ok_0.user.lamports == mid.payer.lamports + mid.prefix_account.lamports
                + mid.escrow_account.lamports
            &&& outcome->Ok_0.user.lamports == pre.payer.lamports + pre.prefix_account.lamports
                + pre.escrow_account.lamports
            &&& outcome->Ok_0.prefix_account.status == Lifecycle::Closed
        }),
{
}

/// `close` pays the user, whoever submits it. Take a call that succeeds,
/// put any other signer in the payer's place and let the user not sign: the
/// call succeeds as before and every balance ends as before, the new payer
/// getting nothing.
pub proof fn close_pays_user_whoever_submits(
    accounts: Close,
    escrow_bump: u8,
    submitter: SystemAccount,
)
    requires
        close_outcome(accounts, escrow_bump) is Ok,
        submitter.is_signer,
        submitter.key@ != accounts.user.key@,
    ensures
        ({
            let post = close_outcome(accounts, escrow_bump)->Ok_0;
            let unsigned = SystemAccount { is_signer: false, ..accounts.user };
            let outcome = close_outcome(
                Close { payer: submitter, user: unsigned, ..accounts },
                escrow_bump,
            );
            &&& outcome is Ok
            &&& outcome->Ok_0.payer == submitter
            &&& outcome->Ok_0.user.key == accounts.user.key
            &&& outcome->Ok_0.user.lamports == post.user.lamports
            &&& outcome->Ok_0.user.lamports == accounts.user.lamports
                + accounts.prefix_account.lamports + accounts.escrow_account.lamports
            &&& outcome->Ok_0.prefix_account == post.prefix_account
            &&& outcome->Ok_0.escrow_account == post.escrow_account
        }),
{
}

/// The repaired `close` refuses what the flawed one lets through: where the
/// user did not sign it fails, whoever pays; where the user did sign it
/// does what `close` does.
pub proof fn close_signed_wants_the_user(accounts: Close, escrow_bump: u8)
    ensures
        !accounts.user.is_signer ==> close_signed_outcome(accounts, escrow_bump) == Err::<
            Close,
            ProgramError,
        >(ProgramError::AccountNotSigner),
        accounts.user.is_signer ==> close_signed_outcome(accounts, escrow_bump) == close_outcome(
            accounts,
            escrow_bump,
        ),
{
}

/// Where the account set passes its checks and the user cannot take the
/// prefix account's balance, `close` fails with `NumericalOverflow`; so it
/// does in particular where the user holds the largest balance there is and
/// the prefix account holds anything at all. A failed call changes nothing.
pub proof fn close_overflow_is_reported(accounts: Close, escrow_bump: u8)
    requires
        accounts.constraint_violation(escrow_bump) is None,
        accounts.user.lamports + accounts.prefix_account.lamports > u64::MAX,
    ensures
        close_outcome(accounts, escrow_bump) == Err::<Close, ProgramError>(
            ProgramError::Custom(ErrorCode::NumericalOverflow),
        ),
{
}

/// `close` cannot be repeated: on the accounts that one successful call
/// left, a second call fails, whatever bump it is given, because the prefix
/// account holds no record any more. The user is credited once.
pub proof fn close_twice_fails(accounts: Close, escrow_bump: u8, second_escrow_bump: u8)
    requires
        close_outcome(accounts, escrow_bump) is Ok,
    ensures
        close_outcome(close_outcome(accounts, escrow_bump)->Ok_0, second_escrow_bump) == Err::<
            Close,
            ProgramError,
        >(ProgramError::AccountNotInitialized),
{
}

/// No instruction makes or loses funds. `initialize` keeps what the payer
/// and the escrow hold together; `close` keeps what the user, the prefix
/// account and the escrow hold together.
pub proof fn instructions_conserve_lamports(
    funding: Initialize,
    prefix_bump: u8,
    amount: u64,
    closing: Close,
    escrow_bump: u8,
)
    ensures
        initialize_outcome(funding, prefix_bump, escrow_bump, amount) matches Ok(post)
            ==> post.payer.lamports + post.escrow_account.lamports == funding.payer.lamports
            + funding.escrow_account.lamports,
        close_outcome(closing, escrow_bump) matches Ok(post) ==> post.user.lamports
            + post.prefix_account.lamports + post.escrow_account.lamports
            == closing.user.lamports + closing.prefix_account.lamports
            + closing.escrow_account.lamports,
{
}

/// An instruction that names a transfer of `lamports` between two accounts
/// is carried out as that transfer: the amount that was written into it is
/// the amount that moves, and the two balances keep their sum.
pub proof fn built_transfer_is_carried_out(
    ix: Instruction,
    from: SystemAccount,
    to: SystemAccount,
    lamports: u64,
    authorized: bool,
)
    requires
        names_transfer(ix, from.key@, to.key@),
        ix.data@ == transfer_data(lamports),
    ensures
        process_outcome(ix, from, to, authorized) == transfer_outcome(
            from,
            to,
            lamports,
            authorized,
        ),
        process_outcome(ix, from, to, authorized) matches Ok((from_after, to_after))
            ==> from_after.lamports + to_after.lamports == from.lamports + to.lamports,
{
    lemma_auto_spec_u64_to_from_le_bytes();
    assert(ix.data@.subrange(4, 12) =~= spec_u64_to_le_bytes(lamports));
}

/// A record that is written and read again is the same record.
pub proof fn prefix_survives_storage(record: Prefix)
    ensures
        record.encoding().len() == PREFIX_LEN,
        Prefix::decoding(record.encoding()) == Some(record),
{
    lemma_auto_spec_u64_to_from_le_bytes();
    assert(record.encoding().subrange(1, 9) =~= spec_u64_to_le_bytes(record.amount));
}

/// Nine bytes that are read as a record and written again are the same
/// bytes: no two stored forms mean one record.
pub proof fn stored_prefix_is_unique(bytes: Seq<u8>)
    requires
        bytes.len() == PREFIX_LEN,
    ensures
        Prefix::decoding(bytes) is Some,
        Prefix::decoding(bytes)->Some_0.encoding() == bytes,
{
    lemma_auto_spec_u64_to_from_le_bytes();
    let amount = bytes.subrange(1, 9);
    assert(spec_u64_to_le_bytes(spec_u64_from_le_bytes(amount)) == amount);
    assert(Prefix::decoding(bytes)->Some_0.encoding() =~= bytes);
}

} // verus!
