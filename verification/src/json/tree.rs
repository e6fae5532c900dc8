//! JSON values as trees: what a `serde_json::Value` holds.

use vstd::prelude::*;

use crate::json::encoder::{json_text, members_of, put_member};

verus! {

/// What a JSON number holds: an unsigned integer, or for another number
/// (negative or with a fraction) the text that the encoder writes for it.
pub enum NumberView {
    Unsigned(u64),
    Other(Seq<char>),
}

/// What a JSON value holds. The members of an object have no order.
pub enum JsonTree {
    Null,
    Bool(bool),
    Number(NumberView),
    Text(Seq<char>),
    Array(Seq<JsonTree>),
    Object(Map<Seq<char>, JsonTree>),
}

/// An unsigned integer as a JSON number.
pub open spec fn unsigned(value: nat) -> JsonTree
    recommends
        value <= u64::MAX,
{
    JsonTree::Number(NumberView::Unsigned(value as u64))
}

/// The members of an object that has none.
pub open spec fn no_member_trees() -> Map<Seq<char>, JsonTree> {
    Map::empty()
}

/// The members of an object after an optional value: with the member where
/// the value is present, unchanged where it is absent.
pub open spec fn with_optional(
    members: Map<Seq<char>, JsonTree>,
    name: Seq<char>,
    value: Option<JsonTree>,
) -> Map<Seq<char>, JsonTree> {
    match value {
        Some(value) => members.insert(name, value),
        None => members,
    }
}

/// An optional text as a JSON string.
pub open spec fn optional_text_tree(text: Option<Seq<char>>) -> Option<JsonTree> {
    match text {
        Some(text) => Some(JsonTree::Text(text)),
        None => None,
    }
}

/// Puts the member of an optional text into the members of an object: a
/// JSON string where the text is present, nothing where it is absent.
pub fn put_optional_text(
    members: &mut serde_json::Map<String, serde_json::Value>,
    name: &str,
    text: Option<&str>,
)
    ensures
        members_of(*final(members)) == with_optional(
            members_of(*old(members)),
            name@,
            optional_text_tree(
                match text {
                    Some(text) => Some(text@),
                    None => None,
                },
            ),
        ),
{
    match text {
        Some(text) => put_member(members, name, json_text(text)),
        None => {},
    }
}

} // verus!
