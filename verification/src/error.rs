//! The ways in which an operation of the ledger is refused.

use vstd::prelude::*;

verus! {

/// Why an operation was refused. A refused operation changes nothing.
#[derive(Debug, Clone, Copy, PartialEq, Eq, Structural)]
pub enum MessagingError {
    /// The caller did not prove control of the identity it claimed.
    AuthenticationFailure,
    /// The requester is neither sender nor receiver of the record it asked for.
    Unauthorized,
    /// Someone other than the receiver tried to mark a record as read.
    ForbiddenMarkRead,
    /// No record is stored under the requested identifier.
    NotFound,
}

impl MessagingError {
    /// The text of the description of each refusal.
    pub open spec fn text(self) -> Seq<char> {
        match self {
            MessagingError::AuthenticationFailure => "Authentication failed"@,
            MessagingError::Unauthorized => "Unauthorized access to message"@,
            MessagingError::ForbiddenMarkRead => "Only the receiver can mark message as read"@,
            MessagingError::NotFound => "Message not found"@,
        }
    }

    /// A human-readable description of the refusal.
    pub fn message(&self) -> (text: &'static str)
        ensures
            text@ == self.text(),
    {
        match self {
            MessagingError::AuthenticationFailure => "Authentication failed",
            MessagingError::Unauthorized => "Unauthorized access to message",
            MessagingError::ForbiddenMarkRead => "Only the receiver can mark message as read",
            MessagingError::NotFound => "Message not found",
        }
    }
}

} // verus!
