//! The accounts that the instructions read and change, as plain values.

use vstd::prelude::*;
use vstd::bytes::{
    spec_u64_from_le_bytes, spec_u64_to_le_bytes, u64_from_le_bytes, u64_to_le_bytes,
};
use vstd::slice::slice_subrange;
use crate::address::Address;

verus! {

/// A balance-only account of the ledger: a payer, a user or an escrow.
#[derive(Clone, Copy, Debug, PartialEq, Eq)]
pub struct SystemAccount {
    /// The account's address.
    pub key: Address,
    /// The balance, in the ledger's smallest unit.
    pub lamports: u64,
    /// Whether the account signed the transaction at hand.
    pub is_signer: bool,
}

impl SystemAccount {
    /// An account at `key` that holds `lamports`.
    pub fn new(key: Address, lamports: u64, is_signer: bool) -> (a: SystemAccount)
        ensures
            a == (SystemAccount { key, lamports, is_signer }),
    {
        SystemAccount { key, lamports, is_signer }
    }

    /// The same account with another balance.
    pub open spec fn with_lamports(self, lamports: u64) -> SystemAccount {
        SystemAccount { lamports, ..self }
    }
}

/// The record kept in a prefix account.
#[derive(Clone, Copy, Debug, PartialEq, Eq, Structural)]
pub struct Prefix {
    /// The bump with which the prefix account's address was derived.
    pub bump: u8,
    /// The amount that was moved into escrow when the record was made.
    pub amount: u64,
}

/// The number of bytes that a stored record takes: one for the bump and
/// eight for the amount.
pub const PREFIX_LEN: usize = 9;

impl Prefix {
    /// The stored form of the record: the bump, then the amount as eight
    /// bytes with the least significant first.
    pub open spec fn encoding(self) -> Seq<u8> {
        seq![self.bump] + spec_u64_to_le_bytes(self.amount)
    }

    /// The record that `bytes` store, where they are a record's nine bytes.
    pub open spec fn decoding(bytes: Seq<u8>) -> Option<Prefix> {
        if bytes.len() == PREFIX_LEN {
            Some(
                Prefix { bump: bytes[0], amount: spec_u64_from_le_bytes(bytes.subrange(1, 9)) },
            )
        } else {
            None
        }
    }

    /// Writes the record in its stored form.
    pub fn to_bytes(&self) -> (bytes: Vec<u8>)
        ensures
            bytes@ == self.encoding(),
            bytes@.len() == PREFIX_LEN,
    {
        let mut bytes: Vec<u8> = Vec::new();
        bytes.push(self.bump);
        let mut amount = u64_to_le_bytes(self.amount);
        bytes.append(&mut amount);
        proof {
            assert(bytes@ =~= self.encoding());
        }
        bytes
    }

    /// Reads a record from its stored form. Anything but nine bytes is no
    /// record.
    pub fn from_bytes(bytes: &[u8]) -> (r: Option<Prefix>)
        ensures
            r == Prefix::decoding(bytes@),
    {
        if bytes.len() != PREFIX_LEN {
            return None;
        }
        let amount = u64_from_le_bytes(slice_subrange(bytes, 1, 9));
        Some(Prefix { bump: bytes[0], amount })
    }
}

impl Default for Prefix {
    fn default() -> (p: Prefix)
        ensures
            p == (Prefix { bump: 0, amount: 0 }),
    {
        Prefix { bump: 0, amount: 0 }
    }
}

/// Where a prefix account stands in its life. It only ever moves forward.
#[derive(Clone, Copy, Debug, PartialEq, Eq, Structural)]
pub enum Lifecycle {
    /// Nothing was created at the address yet.
    Uninitialized,
    /// `initialize` wrote the record and funded the escrow.
    Funded,
    /// `close` emptied the account; the record can no longer be used.
    Closed,
}

/// The account that holds a `Prefix` record, owned by this program.
#[derive(Clone, Copy, Debug, PartialEq, Eq)]
pub struct PrefixAccount {
    /// The account's address.
    pub key: Address,
    /// The balance that backs the account.
    pub lamports: u64,
    /// Whether the record was written, and whether it was closed again.
    pub status: Lifecycle,
    /// The record. It means something only while the account is `Funded`.
    pub data: Prefix,
}

impl PrefixAccount {
    /// An account at `key` in which nothing was created yet.
    pub fn new(key: Address, lamports: u64) -> (a: PrefixAccount)
        ensures
            a == (PrefixAccount {
                key,
                lamports,
                status: Lifecycle::Uninitialized,
                data: Prefix { bump: 0, amount: 0 },
            }),
    {
        PrefixAccount {
            key,
            lamports,
            status: Lifecycle::Uninitialized,
            data: Prefix { bump: 0, amount: 0 },
        }
    }
}

} // verus!
