//! Errors that an instruction can end with.

use vstd::prelude::*;

verus! {

/// The errors that this program itself defines.
#[derive(Clone, Copy, Debug, PartialEq, Eq, Structural)]
pub enum ErrorCode {
    /// Crediting an account would exceed the range of a balance.
    NumericalOverflow,
}

impl ErrorCode {
    /// The message that accompanies the error.
    pub fn message(&self) -> (m: &'static str)
        ensures
            m@ == "Numerical overflow"@,
    {
        match self {
            ErrorCode::NumericalOverflow => "Numerical overflow",
        }
    }
}

/// Every way in which an instruction can fail: the program's own errors and
/// those that the ledger raises while it checks accounts or moves balances.
#[derive(Clone, Copy, Debug, PartialEq, Eq, Structural)]
pub enum ProgramError {
    /// An error of the program itself.
    Custom(ErrorCode),
    /// An account that has to sign the transaction did not.
    AccountNotSigner,
    /// An account's address is not the one that its seeds and bump derive.
    ConstraintSeeds,
    /// The account to create exists already.
    AccountAlreadyInUse,
    /// The account holds no record that could be read.
    AccountNotInitialized,
    /// The program account is not the ledger's system program.
    InvalidProgramId,
    /// An instruction is not one that the addressed program carries out on
    /// the accounts at hand.
    InvalidInstruction,
    /// Nobody with authority over the source signed a transfer.
    MissingRequiredSignature,
    /// The source of a transfer holds less than the amount to move.
    InsufficientFunds,
    /// The target of a transfer would exceed the range of a balance.
    ArithmeticOverflow,
}

} // verus!
