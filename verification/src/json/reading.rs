//! Reading the members of a JSON object.

use vstd::prelude::*;

use crate::error::Error;
use crate::json::encoder::{
    as_flag, as_members, as_number, as_text, as_unsigned, get_member, is_null, members_of,
    mismatch, number_view, parse, parsed, tree,
};
use crate::json::tree::{JsonTree, NumberView};

verus! {

/// The member that a name stands for. A member that is `null` counts as
/// absent.
pub open spec fn present(members: Map<Seq<char>, JsonTree>, name: Seq<char>) -> Option<JsonTree> {
    if members.contains_key(name) && !(members[name] is Null) {
        Some(members[name])
    } else {
        None
    }
}

/// The text of a member that has to be there and to be a string.
pub open spec fn text_member(members: Map<Seq<char>, JsonTree>, name: Seq<char>) -> Option<
    Seq<char>,
> {
    match present(members, name) {
        Some(JsonTree::Text(text)) => Some(text),
        _ => None,
    }
}

/// The text of a member that may be absent; where it is there it has to be a
/// string. `None` stands for a member that is no string.
pub open spec fn optional_text_member(
    members: Map<Seq<char>, JsonTree>,
    name: Seq<char>,
) -> Option<Option<Seq<char>>> {
    match present(members, name) {
        Some(JsonTree::Text(text)) => Some(Some(text)),
        Some(_) => None,
        None => Some(None),
    }
}

/// The integer of a member that has to be there and to be an unsigned
/// integer of at most `most`.
pub open spec fn unsigned_member(
    members: Map<Seq<char>, JsonTree>,
    name: Seq<char>,
    most: u64,
) -> Option<u64> {
    match present(members, name) {
        Some(JsonTree::Number(NumberView::Unsigned(value))) => if value <= most {
            Some(value)
        } else {
            None
        },
        _ => None,
    }
}

/// The boolean of a member that has to be there and to be a boolean.
pub open spec fn flag_member(members: Map<Seq<char>, JsonTree>, name: Seq<char>) -> Option<bool> {
    match present(members, name) {
        Some(JsonTree::Bool(flag)) => Some(flag),
        _ => None,
    }
}

/// The members of a member that has to be there and to be an object.
pub open spec fn object_member(members: Map<Seq<char>, JsonTree>, name: Seq<char>) -> Option<
    Map<Seq<char>, JsonTree>,
> {
    match present(members, name) {
        Some(JsonTree::Object(inner)) => Some(inner),
        _ => None,
    }
}

/// The number of a member that has to be there and to be a number.
pub open spec fn number_member(members: Map<Seq<char>, JsonTree>, name: Seq<char>) -> Option<
    NumberView,
> {
    match present(members, name) {
        Some(JsonTree::Number(number)) => Some(number),
        _ => None,
    }
}

/// Whether two texts are the same.
pub fn same_text(left: &str, right: &str) -> (same: bool)
    ensures
        same == (left@ == right@),
{
    left.to_owned() == right.to_owned()
}

/// The error of a document that does not have the expected shape.
pub fn wrong_shape(message: &str) -> (error: Error)
    ensures
        error is SerdeError,
{
    Error::SerdeError(mismatch(message))
}

/// Finds the member that a name stands for; `null` counts as absent.
pub fn find<'a>(members: &'a serde_json::Map<String, serde_json::Value>, name: &str) -> (found:
    Option<&'a serde_json::Value>)
    ensures
        match found {
            Some(value) => present(members_of(*members), name@) == Some(tree(*value)),
            None => present(members_of(*members), name@) is None,
        },
{
    match get_member(members, name) {
        Some(value) => if is_null(value) {
            None
        } else {
            Some(value)
        },
        None => None,
    }
}

/// Reads a member that has to be there and to be a string.
pub fn read_text(members: &serde_json::Map<String, serde_json::Value>, name: &str) -> (text:
    Result<String, Error>)
    ensures
        match text_member(members_of(*members), name@) {
            Some(expected) => text matches Ok(text) && text@ == expected,
            None => text matches Err(error) && error is SerdeError,
        },
{
    match find(members, name) {
        Some(value) => match as_text(value) {
            Some(text) => Ok(text.to_owned()),
            None => Err(wrong_shape("expected a string")),
        },
        None => Err(wrong_shape("missing member")),
    }
}

/// Reads a member that may be absent and otherwise has to be a string.
pub fn read_optional_text(
    members: &serde_json::Map<String, serde_json::Value>,
    name: &str,
) -> (text: Result<Option<String>, Error>)
    ensures
        match optional_text_member(members_of(*members), name@) {
            Some(expected) => text matches Ok(text) && crate::validation::optional_text(text)
                == expected,
            None => text matches Err(error) && error is SerdeError,
        },
{
    match find(members, name) {
        Some(value) => match as_text(value) {
            Some(text) => Ok(Some(text.to_owned())),
            None => Err(wrong_shape("expected a string")),
        },
        None => Ok(None),
    }
}

/// Reads a member that has to be there and to be an unsigned integer of at
/// most `most`.
pub fn read_unsigned(
    members: &serde_json::Map<String, serde_json::Value>,
    name: &str,
    most: u64,
) -> (integer: Result<u64, Error>)
    ensures
        match unsigned_member(members_of(*members), name@, most) {
            Some(expected) => integer matches Ok(integer) && integer == expected,
            None => integer matches Err(error) && error is SerdeError,
        },
{
    match find(members, name) {
        Some(value) => match as_unsigned(value) {
            Some(integer) => if integer <= most {
                Ok(integer)
            } else {
                Err(wrong_shape("integer out of range"))
            },
            None => Err(wrong_shape("expected an unsigned integer")),
        },
        None => Err(wrong_shape("missing member")),
    }
}

/// Reads a member that has to be there and to be a number.
pub fn read_number(members: &serde_json::Map<String, serde_json::Value>, name: &str) -> (number:
    Result<serde_json::Number, Error>)
    ensures
        match number_member(members_of(*members), name@) {
            Some(expected) => number matches Ok(number) && number_view(number) == expected,
            None => number matches Err(error) && error is SerdeError,
        },
{
    match find(members, name) {
        Some(value) => match as_number(value) {
            Some(number) => Ok(number),
            None => Err(wrong_shape("expected a number")),
        },
        None => Err(wrong_shape("missing member")),
    }
}

/// Reads a member that has to be there and to be a boolean.
pub fn read_flag(members: &serde_json::Map<String, serde_json::Value>, name: &str) -> (flag:
    Result<bool, Error>)
    ensures
        match flag_member(members_of(*members), name@) {
            Some(expected) => flag matches Ok(flag) && flag == expected,
            None => flag matches Err(error) && error is SerdeError,
        },
{
    match find(members, name) {
        Some(value) => match as_flag(value) {
            Some(flag) => Ok(flag),
            None => Err(wrong_shape("expected a boolean")),
        },
        None => Err(wrong_shape("missing member")),
    }
}

/// Reads a member that has to be there and to be an object.
pub fn read_object<'a>(
    members: &'a serde_json::Map<String, serde_json::Value>,
    name: &str,
) -> (inner: Result<&'a serde_json::Map<String, serde_json::Value>, Error>)
    ensures
        match object_member(members_of(*members), name@) {
            Some(expected) => inner matches Ok(inner) && members_of(*inner) == expected,
            None => inner matches Err(error) && error is SerdeError,
        },
{
    match find(members, name) {
        Some(value) => match as_members(value) {
            Some(inner) => Ok(inner),
            None => Err(wrong_shape("expected an object")),
        },
        None => Err(wrong_shape("missing member")),
    }
}

/// Parses a text as JSON. Where the text is no JSON, the parser's error is
/// returned as `SerdeError`.
pub fn read_json(text: &str) -> (value: Result<serde_json::Value, Error>)
    ensures
        match parsed(text@) {
            Some(expected) => value matches Ok(value) && tree(value) == expected,
            None => value matches Err(error) && error is SerdeError,
        },
{
    match parse(text) {
        Ok(value) => Ok(value),
        Err(cause) => Err(Error::from(cause)),
    }
}

} // verus!
