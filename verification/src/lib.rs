//! An escrow program in miniature: two instructions over a small ledger of
//! accounts whose addresses are derived from seeds.
//!
//! `initialize` records a deposit in a prefix account and moves the deposit
//! from the payer into an escrow account. `close` empties the prefix account
//! and the escrow account into a `user` account. `close` never asks `user`
//! to sign, so anyone who pays the fee can close another owner's pair; the
//! contracts below state that behaviour exactly, flaw included.

pub mod address;
pub mod error;
pub mod instructions;
pub mod laws;
pub mod state;
pub mod system;

pub use address::Address;
pub use error::{ErrorCode, ProgramError};
pub use instructions::{close, close_signed, initialize, Close, Initialize};
pub use state::{Lifecycle, Prefix, PrefixAccount, SystemAccount, PREFIX_LEN};
pub use system::{AccountMeta, Instruction};
