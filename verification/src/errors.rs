//! The closed set of failure codes this program reports to its caller.

use vstd::prelude::*;

verus! {

/// Every way an invocation of this program can fail on its own account.
///
/// The first four variants are raised by the decoder and the address
/// checks; the remaining ones are reserved for stricter account
/// validation and are kept so that callers see a stable numbering.
#[derive(Clone, Copy, Debug, PartialEq, Eq, Structural)]
pub enum TokenTracingError {
    InvalidInstruction,
    InvalidInstructionData,
    InvalidAccountAddress,
    InvalidVaultAccount,
    ExchangeBoothNotWritable,
    AccountIsNotWritable,
    AccountIsNotSigner,
    InvalidOwner,
    InsufficientFunds,
    AccountNotInitialized,
    InvalidSPLTokenAccount,
    InvalidMint,
    UniqueMintAccounts,
}

impl TokenTracingError {
    /// The numeric code under which a variant travels in an invocation
    /// result: its position in the declaration order.
    pub open spec fn spec_code(self) -> u32 {
        match self {
            TokenTracingError::InvalidInstruction => 0,
            TokenTracingError::InvalidInstructionData => 1,
            TokenTracingError::InvalidAccountAddress => 2,
            TokenTracingError::InvalidVaultAccount => 3,
            TokenTracingError::ExchangeBoothNotWritable => 4,
            TokenTracingError::AccountIsNotWritable => 5,
            TokenTracingError::AccountIsNotSigner => 6,
            TokenTracingError::InvalidOwner => 7,
            TokenTracingError::InsufficientFunds => 8,
            TokenTracingError::AccountNotInitialized => 9,
            TokenTracingError::InvalidSPLTokenAccount => 10,
            TokenTracingError::InvalidMint => 11,
            TokenTracingError::UniqueMintAccounts => 12,
        }
    }

    /// The numeric error code handed back to the ledger runtime.
    pub fn code(self) -> (c: u32)
        ensures
            c == self.spec_code(),
    {
        match self {
            TokenTracingError::InvalidInstruction => 0,
            TokenTracingError::InvalidInstructionData => 1,
            TokenTracingError::InvalidAccountAddress => 2,
            TokenTracingError::InvalidVaultAccount => 3,
            TokenTracingError::ExchangeBoothNotWritable => 4,
            TokenTracingError::AccountIsNotWritable => 5,
            TokenTracingError::AccountIsNotSigner => 6,
            TokenTracingError::InvalidOwner => 7,
            TokenTracingError::InsufficientFunds => 8,
            TokenTracingError::AccountNotInitialized => 9,
            TokenTracingError::InvalidSPLTokenAccount => 10,
            TokenTracingError::InvalidMint => 11,
            TokenTracingError::UniqueMintAccounts => 12,
        }
    }
}

} // verus!
