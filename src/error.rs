use vstd::prelude::*;

verus! {

/// Which of the gateway's operations failed, and how.
#[derive(Clone, Copy, Debug, PartialEq, Eq, Structural)]
pub enum ErrorKind {
    /// The native write failed.
    StoreFailed,
    /// The native read failed for a reason other than a missing item.
    RetrieveFailed,
    /// The native delete failed for a reason other than a missing item.
    DeleteFailed,
    /// The stored bytes are not valid UTF-8 text.
    InvalidEncoding,
}

/// An error of the gateway: its kind, and the detail that explains it.
#[derive(Debug)]
pub struct CredentialError {
    pub kind: ErrorKind,
    pub detail: String,
}

/// The text that a message of the given kind starts with.
pub open spec fn message_prefix(kind: ErrorKind) -> Seq<char> {
    match kind {
        ErrorKind::StoreFailed => "Failed to store credential: "@,
        ErrorKind::RetrieveFailed => "Failed to retrieve credential: "@,
        ErrorKind::DeleteFailed => "Failed to delete credential: "@,
        ErrorKind::InvalidEncoding => "Invalid UTF-8: "@,
    }
}

impl CredentialError {
    /// The message handed to the caller: a prefix naming what failed,
    /// followed by the detail.
    pub fn message(&self) -> (r: String)
        ensures
            r@ == message_prefix(self.kind) + self.detail@,
    {
        let prefix = match self.kind {
            ErrorKind::StoreFailed => String::from_str("Failed to store credential: "),
            ErrorKind::RetrieveFailed => String::from_str("Failed to retrieve credential: "),
            ErrorKind::DeleteFailed => String::from_str("Failed to delete credential: "),
            ErrorKind::InvalidEncoding => String::from_str("Invalid UTF-8: "),
        };
        prefix.concat(self.detail.as_str())
    }
}

} // verus!
