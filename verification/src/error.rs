//! The one error type of the crate.

use vstd::prelude::*;
use vstd::string::*;

use crate::json::text::{decimal, write_decimal};

verus! {

/// What can go wrong when a document is built, serialized or read.
#[derive(Debug)]
pub enum Error {
    /// A field is longer than the server accepts: a text's length in
    /// characters, or a sequence's number of entries, is above `limit`.
    FieldTooLong { name: String, len: usize, limit: usize },
    /// The JSON encoder failed on a value, or what was read is not the JSON
    /// of the document asked for.
    SerdeError(serde_json::Error),
}

/// Shorthand for a `Result` with the crate's error.
pub type Result<T> = core::result::Result<T, Error>;

/// A limit that a field exceeds, as a validation failure states it.
pub struct Violation {
    pub name: Seq<char>,
    pub len: nat,
    pub limit: nat,
}

impl Error {
    /// Whether this error is the `FieldTooLong` that states `violation`.
    pub open spec fn reports(self, violation: Violation) -> bool {
        &&& self matches Error::FieldTooLong { name, len, limit }
        &&& name@ == violation.name
        &&& len as nat == violation.len
        &&& limit as nat == violation.limit
    }

    /// The message of the error, in words.
    pub open spec fn message_text(self) -> Seq<char> {
        match self {
            Error::FieldTooLong { name, len, limit } => "field '"@ + name@
                + "' too long, its length "@ + decimal(len as nat)
                + " is longer than the allowed limit "@ + decimal(limit as nat),
            Error::SerdeError(_) => "serialization error"@,
        }
    }

    /// The message of the error, in words: for a field that is too long, its
    /// name, its length and the limit.
    pub fn message(&self) -> (text: String)
        ensures
            text@ == self.message_text(),
    {
        match self {
            Error::FieldTooLong { name, len, limit } => {
                let mut text = String::from_str("field '");
                text.append(name.as_str());
                text.append("' too long, its length ");
                text.append(write_decimal(*len as u64).as_str());
                text.append(" is longer than the allowed limit ");
                text.append(write_decimal(*limit as u64).as_str());
                text
            },
            Error::SerdeError(_) => String::from_str("serialization error"),
        }
    }
}

impl From<serde_json::Error> for Error {
    fn from(cause: serde_json::Error) -> (error: Error) {
        Error::SerdeError(cause)
    }
}

impl vstd::std_specs::convert::FromSpecImpl<serde_json::Error> for Error {
    open spec fn obeys_from_spec() -> bool {
        true
    }

    open spec fn from_spec(cause: serde_json::Error) -> Error {
        Error::SerdeError(cause)
    }
}

} // verus!
