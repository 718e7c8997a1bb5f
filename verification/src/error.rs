//! The named ways in which a call can fail.

use vstd::prelude::*;

verus! {

/// Why a call was refused. Every failure is terminal for the call that raised
/// it and leaves all records as they were.
#[derive(Clone, Copy, Debug, PartialEq, Eq, Structural)]
pub enum TrumpwormError {
    /// A player's display name is longer than fifteen characters.
    UsernameTooLong,
    /// The caller is not the pool's authority.
    Unauthorized,
    /// A batch holds more than ten amounts.
    TooManyRecipients,
    /// A batch does not hold one amount for each recipient account.
    MismatchedRecipients,
    /// A deposit of nothing.
    ZeroAmount,
    /// The record to create is already there.
    AlreadyExists,
    /// A counter would pass the largest value it can hold.
    Overflow,
    /// The ledger refused to move value between two accounts.
    TransferFailed,
    /// No keyless signing identity can be derived for the token.
    NoDerivedAuthority,
}

/// The four families of failure, by what a caller may do about them.
#[derive(Clone, Copy, Debug, PartialEq, Eq, Structural)]
pub enum ErrorKind {
    /// The caller is not who the pool expects.
    Authorization,
    /// The arguments or the records named are not acceptable.
    Validation,
    /// A counter cannot hold the result.
    Arithmetic,
    /// The ledger did not move the value.
    Transfer,
}

impl TrumpwormError {
    /// The family a failure belongs to.
    pub open spec fn spec_kind(self) -> ErrorKind {
        match self {
            TrumpwormError::Unauthorized => ErrorKind::Authorization,
            TrumpwormError::UsernameTooLong => ErrorKind::Validation,
            TrumpwormError::TooManyRecipients => ErrorKind::Validation,
            TrumpwormError::MismatchedRecipients => ErrorKind::Validation,
            TrumpwormError::ZeroAmount => ErrorKind::Validation,
            TrumpwormError::AlreadyExists => ErrorKind::Validation,
            TrumpwormError::NoDerivedAuthority => ErrorKind::Validation,
            TrumpwormError::Overflow => ErrorKind::Arithmetic,
            TrumpwormError::TransferFailed => ErrorKind::Transfer,
        }
    }

    /// The text shown to a user for each failure.
    pub open spec fn spec_message(self) -> Seq<char> {
        match self {
            TrumpwormError::UsernameTooLong => "Username must be 15 characters or less"@,
            TrumpwormError::Unauthorized => 
                "Unauthorized: Only game authority can perform this action"@,
            TrumpwormError::TooManyRecipients => "Too many recipients (max 10)"@,
            TrumpwormError::MismatchedRecipients => 
                "Number of amounts must match number of recipient accounts"@,
            TrumpwormError::ZeroAmount => "Deposit amount must be greater than zero"@,
            TrumpwormError::AlreadyExists => "Record already exists"@,
            TrumpwormError::Overflow => "Counter overflow"@,
            TrumpwormError::TransferFailed => "Token transfer failed"@,
            TrumpwormError::NoDerivedAuthority => 
                "No treasury authority can be derived for this token"@,
        }
    }

    /// The family this failure belongs to.
    pub fn kind(&self) -> (kind: ErrorKind)
        ensures
            kind == self.spec_kind(),
    {
        match self {
            TrumpwormError::Unauthorized => ErrorKind::Authorization,
            TrumpwormError::Overflow => ErrorKind::Arithmetic,
            TrumpwormError::TransferFailed => ErrorKind::Transfer,
            _ => ErrorKind::Validation,
        }
    }

    /// Whether repeating the same call later can succeed without changing its
    /// arguments: only a refused transfer can, since the ledger's balances
    /// move between calls.
    pub fn is_retryable(&self) -> (retry: bool)
        ensures
            retry == (self.spec_kind() == ErrorKind::Transfer),
    {
        match self {
            TrumpwormError::TransferFailed => true,
            _ => false,
        }
    }

    /// The text shown to a user for this failure.
    pub fn message(&self) -> (text: &'static str)
        ensures
            text@ == self.spec_message(),
    {
        match self {
            TrumpwormError::UsernameTooLong => "Username must be 15 characters or less",
            TrumpwormError::Unauthorized => 
                "Unauthorized: Only game authority can perform this action",
            TrumpwormError::TooManyRecipients => "Too many recipients (max 10)",
            TrumpwormError::MismatchedRecipients => 
                "Number of amounts must match number of recipient accounts",
            TrumpwormError::ZeroAmount => "Deposit amount must be greater than zero",
            TrumpwormError::AlreadyExists => "Record already exists",
            TrumpwormError::Overflow => "Counter overflow",
            TrumpwormError::TransferFailed => "Token transfer failed",
            TrumpwormError::NoDerivedAuthority => 
                "No treasury authority can be derived for this token",
        }
    }
}

} // verus!
