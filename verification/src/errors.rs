//! The failure taxonomy shared by every operation.
//!
//! Every error is detected before any mutation, so a failing operation leaves
//! the record and the registry exactly as they were.

use vstd::prelude::*;

verus! {

/// Reason codes surfaced to the host when an operation is rejected.
#[derive(Clone, Copy, Debug, PartialEq, Eq, Structural)]
pub enum ErrorCode {
    /// The caller's identity does not match the role the operation requires.
    Unauthorized,
    /// A mark already occupies the storage key derived for a creation request.
    DuplicateRecord,
    /// The targeted mark is no longer pending, so votes and confirmations are
    /// rejected.
    AlreadyFinalized,
    /// Confirmation was attempted while the tally does not clear the 3:2
    /// supermajority ratio.
    InsufficientVotes,
}

impl ErrorCode {
    /// A fixed human-readable description of the reason code.
    pub fn message(&self) -> (s: &'static str)
        ensures
            self is Unauthorized ==> s@ == "Unauthorized caller"@,
            self is DuplicateRecord ==> s@ == "Mark already exists for this accused and proof"@,
            self is AlreadyFinalized ==> s@ == "Mark already finalized"@,
            self is InsufficientVotes ==> s@ == "Insufficient votes to confirm"@,
    {
        match self {
            ErrorCode::Unauthorized => "Unauthorized caller",
            ErrorCode::DuplicateRecord => "Mark already exists for this accused and proof",
            ErrorCode::AlreadyFinalized => "Mark already finalized",
            ErrorCode::InsufficientVotes => "Insufficient votes to confirm",
        }
    }
}

} // verus!
