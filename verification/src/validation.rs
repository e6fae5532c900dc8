//! The length check that every limited field goes through.

use vstd::prelude::*;
use vstd::string::*;

use crate::error::{Error, Violation};

verus! {

/// The violation of a field `name` that measures `len` against `limit`:
/// there is one exactly when `len` is above `limit`.
pub open spec fn length_violation(name: Seq<char>, len: nat, limit: nat) -> Option<Violation> {
    if len > limit {
        Some(Violation { name, len, limit })
    } else {
        None
    }
}

/// The violation of an optional field: an absent field has none.
pub open spec fn optional_violation(name: Seq<char>, len: Option<nat>, limit: nat) -> Option<
    Violation,
> {
    match len {
        Some(len) => length_violation(name, len, limit),
        None => None,
    }
}

/// The earlier of two findings: `first` where it is one, else `second`.
pub open spec fn earliest(first: Option<Violation>, second: Option<Violation>) -> Option<
    Violation,
> {
    if first is Some {
        first
    } else {
        second
    }
}

/// Whether `outcome` is the result of a validation that found `finding`:
/// success where nothing was found, else the error that states the finding.
pub open spec fn is_outcome(outcome: Result<(), Error>, finding: Option<Violation>) -> bool {
    match finding {
        Some(violation) => outcome matches Err(error) && error.reports(violation),
        None => outcome is Ok,
    }
}

/// The length of an optional text in characters.
pub open spec fn optional_len(text: Option<Seq<char>>) -> Option<nat> {
    match text {
        Some(text) => Some(text.len()),
        None => None,
    }
}

/// The view of an optional text.
pub open spec fn optional_text(text: Option<String>) -> Option<Seq<char>> {
    match text {
        Some(text) => Some(text@),
        None => None,
    }
}

/// An optional text, borrowed.
pub fn borrowed_text(text: &Option<String>) -> (borrowed: Option<&str>)
    ensures
        match borrowed {
            Some(borrowed) => optional_text(*text) == Some(borrowed@),
            None => *text is None,
        },
{
    match text {
        Some(text) => Some(text.as_str()),
        None => None,
    }
}

/// A limit is sharp: a length equal to the limit passes, and the length one
/// above it is the violation that names the field, that length and the limit.
pub proof fn law_limit_is_sharp(name: Seq<char>, limit: nat)
    ensures
        length_violation(name, limit, limit) is None,
        length_violation(name, limit + 1, limit) == Some(
            Violation { name, len: limit + 1, limit },
        ),
{
}

/// An absent optional field passes whatever the limit.
pub proof fn law_absent_field_passes(name: Seq<char>, limit: nat)
    ensures
        optional_violation(name, None, limit) is None,
{
}

/// Checks a measured length against a limit.
pub fn check_length(name: &str, len: usize, limit: usize) -> (outcome: Result<(), Error>)
    ensures
        is_outcome(outcome, length_violation(name@, len as nat, limit as nat)),
{
    if len > limit {
        Err(Error::FieldTooLong { name: name.to_owned(), len, limit })
    } else {
        Ok(())
    }
}

/// Checks the number of characters of a text against a limit.
pub fn check_text(name: &str, text: &str, limit: usize) -> (outcome: Result<(), Error>)
    ensures
        is_outcome(outcome, length_violation(name@, text@.len(), limit as nat)),
{
    check_length(name, text.unicode_len(), limit)
}

/// Checks an optional text against a limit; an absent text passes.
pub fn check_optional_text(name: &str, text: &Option<String>, limit: usize) -> (outcome: Result<
    (),
    Error,
>)
    ensures
        is_outcome(
            outcome,
            optional_violation(name@, optional_len(optional_text(*text)), limit as nat),
        ),
{
    match text {
        Some(text) => check_text(name, text.as_str(), limit),
        None => Ok(()),
    }
}

} // verus!
