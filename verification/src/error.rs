//! The errors of the library.

use vstd::prelude::*;

verus! {

/// What can go wrong in this library.
#[derive(Debug, Clone, Copy, PartialEq, Eq, Structural)]
pub enum Error {
    /// A required member is absent from a payload of the tracker, or has a
    /// JSON type other than the one that is required of it.
    SchemaViolation,
    /// The address of the tracker is no URL.
    InvalidUrl,
}

/// The sentence that tells the user of an error.
pub open spec fn message_of(error: Error) -> Seq<char> {
    match error {
        Error::SchemaViolation => "A required member of the payload is absent or of an unexpected type."@,
        Error::InvalidUrl => "URL should be a full url of your Youtrack instance."@,
    }
}

impl Error {
    /// A sentence for the user.
    pub fn message(&self) -> (text: String)
        ensures
            text@ == message_of(*self),
    {
        match self {
            Error::SchemaViolation => {
                "A required member of the payload is absent or of an unexpected type.".to_owned()
            },
            Error::InvalidUrl => "URL should be a full url of your Youtrack instance.".to_owned(),
        }
    }
}

} // verus!
