//! The failure kinds of the record store.
//!
//! Every failure of an operation is one of these variants; all are terminal
//! for the invocation that raised them. Each maps to a stable numeric code.

use vstd::prelude::*;

verus! {

/// Everything that can go wrong while decoding an instruction or
/// creating or mutating a record.
#[derive(Clone, Copy, Debug, PartialEq, Eq, Structural)]
pub enum ReviewError {
    /// A record was read before it was ever written.
    UninitializedAccount,
    /// A supplied buffer's address does not match the re-derived address.
    InvalidPDA,
    /// The encoded record would exceed the buffer's fixed capacity.
    InvalidDataLength,
    /// A rating outside the accepted range of 1 through 5.
    InvalidRating,
    /// A mint, mint-authority, destination or ledger-service identity
    /// does not match its expected value.
    IncorrectAccount,
    /// The instruction buffer is empty, carries an unknown command tag,
    /// or its payload does not parse.
    InvalidInstructionData,
    /// The first account was expected to sign the invocation but did not.
    MissingSignature,
    /// A record was created at an address that already holds one.
    AlreadyInitialized,
    /// A buffer that should hold a record of this program is owned by
    /// some other program.
    InvalidOwner,
    /// A non-zero buffer whose bytes do not parse as the expected record.
    DecodeError,
    /// No bump byte yields a valid derived address for the given seeds.
    DerivationExhausted,
    /// The ordered account list is shorter than the command requires.
    NotEnoughAccounts,
}

/// The stable numeric code of each failure kind.
pub open spec fn error_code(e: ReviewError) -> u32 {
    match e {
        ReviewError::UninitializedAccount => 0,
        ReviewError::InvalidPDA => 1,
        ReviewError::InvalidDataLength => 2,
        ReviewError::InvalidRating => 3,
        ReviewError::IncorrectAccount => 4,
        ReviewError::InvalidInstructionData => 5,
        ReviewError::MissingSignature => 6,
        ReviewError::AlreadyInitialized => 7,
        ReviewError::InvalidOwner => 8,
        ReviewError::DecodeError => 9,
        ReviewError::DerivationExhausted => 10,
        ReviewError::NotEnoughAccounts => 11,
    }
}

/// The human-readable description of each failure kind. Callers are
/// expected to pattern-match on the kind; the text is for diagnostics
/// only.
pub open spec fn error_message(e: ReviewError) -> Seq<char> {
    match e {
        ReviewError::UninitializedAccount => "Account not initialized yet"@,
        ReviewError::InvalidPDA => "PDA derived does not equal PDA passed in"@,
        ReviewError::InvalidDataLength => "Input data exceeds max length"@,
        ReviewError::InvalidRating => "Rating greater than 5 or less than 1"@,
        ReviewError::IncorrectAccount => "Accounts do not match"@,
        ReviewError::InvalidInstructionData => "Instruction data did not decode"@,
        ReviewError::MissingSignature => "Missing required signature"@,
        ReviewError::AlreadyInitialized => "Account already initialized"@,
        ReviewError::InvalidOwner => "Account owned by another program"@,
        ReviewError::DecodeError => "Stored record did not decode"@,
        ReviewError::DerivationExhausted => "No valid bump seed found"@,
        ReviewError::NotEnoughAccounts => "Not enough accounts supplied"@,
    }
}

impl ReviewError {
    /// The human-readable description of this failure.
    pub fn message(&self) -> (m: String)
        ensures
            m@ == error_message(*self),
    {
        match self {
            ReviewError::UninitializedAccount => "Account not initialized yet".to_owned(),
            ReviewError::InvalidPDA => "PDA derived does not equal PDA passed in".to_owned(),
            ReviewError::InvalidDataLength => "Input data exceeds max length".to_owned(),
            ReviewError::InvalidRating => "Rating greater than 5 or less than 1".to_owned(),
            ReviewError::IncorrectAccount => "Accounts do not match".to_owned(),
            ReviewError::InvalidInstructionData => "Instruction data did not decode".to_owned(),
            ReviewError::MissingSignature => "Missing required signature".to_owned(),
            ReviewError::AlreadyInitialized => "Account already initialized".to_owned(),
            ReviewError::InvalidOwner => "Account owned by another program".to_owned(),
            ReviewError::DecodeError => "Stored record did not decode".to_owned(),
            ReviewError::DerivationExhausted => "No valid bump seed found".to_owned(),
            ReviewError::NotEnoughAccounts => "Not enough accounts supplied".to_owned(),
        }
    }

    /// The stable numeric code callers may pattern-match on.
    pub fn code(&self) -> (c: u32)
        ensures
            c == error_code(*self),
    {
        match self {
            ReviewError::UninitializedAccount => 0,
            ReviewError::InvalidPDA => 1,
            ReviewError::InvalidDataLength => 2,
            ReviewError::InvalidRating => 3,
            ReviewError::IncorrectAccount => 4,
            ReviewError::InvalidInstructionData => 5,
            ReviewError::MissingSignature => 6,
            ReviewError::AlreadyInitialized => 7,
            ReviewError::InvalidOwner => 8,
            ReviewError::DecodeError => 9,
            ReviewError::DerivationExhausted => 10,
            ReviewError::NotEnoughAccounts => 11,
        }
    }
}

} // verus!
