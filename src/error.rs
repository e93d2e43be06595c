//! The errors that the client reports.
use vstd::prelude::*;

verus! {

/// Why a provisioning request failed.
#[derive(Debug, Clone, PartialEq, Eq)]
pub enum InstagresError {
    /// The referrer was empty or white space only; nothing was sent.
    InvalidArgument,
    /// The HTTP exchange failed; the text describes the failure.
    Transport(String),
    /// The response body was not JSON of the expected shape.
    Deserialization(String),
}

/// The text that reports a missing referrer.
pub open spec fn referrer_required_message() -> Seq<char> {
    "referrer is required and cannot be empty"@
}

impl InstagresError {
    /// The user-facing text of this error.
    pub open spec fn message_spec(&self) -> Seq<char> {
        match self {
            InstagresError::InvalidArgument => referrer_required_message(),
            InstagresError::Transport(text) => text@,
            InstagresError::Deserialization(text) => text@,
        }
    }

    /// The user-facing text of this error.
    pub fn message(&self) -> (r: String)
        ensures
            r@ == self.message_spec(),
    {
        match self {
            InstagresError::InvalidArgument => String::from_str(
                "referrer is required and cannot be empty",
            ),
            InstagresError::Transport(text) => text.clone(),
            InstagresError::Deserialization(text) => text.clone(),
        }
    }
}

} // verus!
