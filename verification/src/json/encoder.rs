//! The calls into the JSON encoder, and the names of what they return.
//!
//! Nothing here is proved: each contract states what the encoder's source
//! shows of the call.

use serde_json::Error as EncoderError;
use vstd::prelude::*;

use crate::json::text::decimal;
use crate::json::tree::{no_member_trees, JsonTree, NumberView};

verus! {

/// The error of the JSON encoder, carried through unread.
#[verifier::external_type_specification]
#[verifier::external_body]
pub struct ExEncoderError(EncoderError);

/// A JSON number of the encoder, carried through unread.
#[verifier::external_type_specification]
#[verifier::external_body]
pub struct ExNumber(serde_json::Number);

/// A JSON value of the encoder.
#[verifier::external_type_specification]
#[verifier::external_body]
pub struct ExValue(serde_json::Value);

/// The members of a JSON object of the encoder.
#[verifier::external_type_specification]
#[verifier::external_body]
#[verifier::reject_recursive_types(K)]
#[verifier::reject_recursive_types(V)]
pub struct ExObject<K, V>(serde_json::Map<K, V>);

/// What a JSON value holds.
pub uninterp spec fn tree(value: serde_json::Value) -> JsonTree;

/// What the members of a JSON object hold, by name.
pub uninterp spec fn members_of(object: serde_json::Map<String, serde_json::Value>) -> Map<
    Seq<char>,
    JsonTree,
>;

/// The JSON value that the parser reads from a text, if the text is JSON.
pub uninterp spec fn parsed(text: Seq<char>) -> Option<JsonTree>;

/// The JSON string literal that the encoder writes for `text`: the text
/// between double quotes, with the characters that JSON does not take as
/// they are written as escapes. `None` where the encoder fails on the text.
pub uninterp spec fn escaped(text: Seq<char>) -> Option<Seq<char>>;

/// What a JSON number of the encoder holds: the integer where it is an
/// unsigned integer, else the text that the encoder writes for it.
pub uninterp spec fn number_view(number: serde_json::Number) -> NumberView;

/// `serde_json::to_string` on a `str`: the JSON string literal of the text,
/// or the encoder's error. Which of the two comes, and what the literal is,
/// depends on the text alone.
#[verifier::external_body]
pub(crate) fn quote(text: &str) -> (literal: Result<String, EncoderError>)
    ensures
        match literal {
            Ok(literal) => escaped(text@) == Some(literal@),
            Err(_) => escaped(text@) is None,
        },
{
    serde_json::to_string(text)
}

/// `to_string` of `serde_json::Number`, its `Display`: an unsigned integer
/// in decimal, another number as the encoder writes it.
#[verifier::external_body]
pub(crate) fn render_number(number: &serde_json::Number) -> (text: String)
    ensures
        text@ == match number_view(*number) {
            NumberView::Unsigned(value) => decimal(value as nat),
            NumberView::Other(written) => written,
        },
{
    number.to_string()
}

/// `Value::Bool`: the value is that boolean.
#[verifier::external_body]
pub(crate) fn json_bool(value: bool) -> (json: serde_json::Value)
    ensures
        tree(json) == JsonTree::Bool(value),
{
    serde_json::Value::Bool(value)
}

/// `Value::Number` of `Number::from` on a `u64`: the value is that unsigned
/// integer.
#[verifier::external_body]
pub(crate) fn json_unsigned(value: u64) -> (json: serde_json::Value)
    ensures
        tree(json) == JsonTree::Number(NumberView::Unsigned(value)),
{
    serde_json::Value::Number(serde_json::Number::from(value))
}

/// `Value::Number` on a copy of the number: the value is that number.
#[verifier::external_body]
pub(crate) fn json_number(number: &serde_json::Number) -> (json: serde_json::Value)
    ensures
        tree(json) == JsonTree::Number(number_view(*number)),
{
    serde_json::Value::Number(number.clone())
}

/// `Value::String` on a copy of the text: the value is that string.
#[verifier::external_body]
pub(crate) fn json_text(text: &str) -> (json: serde_json::Value)
    ensures
        tree(json) == JsonTree::Text(text@),
{
    serde_json::Value::String(text.to_owned())
}

/// `Value::Array`: the value is the array of the items, in their order.
#[verifier::external_body]
pub(crate) fn json_array(items: Vec<serde_json::Value>) -> (json: serde_json::Value)
    ensures
        tree(json) == JsonTree::Array(items@.map_values(|item: serde_json::Value| tree(item))),
{
    serde_json::Value::Array(items)
}

/// `Value::Object`: the value is the object of the members.
#[verifier::external_body]
pub(crate) fn json_object(members: serde_json::Map<String, serde_json::Value>) -> (json:
    serde_json::Value)
    ensures
        tree(json) == JsonTree::Object(members_of(members)),
{
    serde_json::Value::Object(members)
}

/// `Map::new`: no members.
#[verifier::external_body]
pub(crate) fn no_members() -> (object: serde_json::Map<String, serde_json::Value>)
    ensures
        members_of(object) == no_member_trees(),
{
    serde_json::Map::new()
}

/// `Map::insert`: afterwards the name stands for the value, in place of what
/// it stood for before; the other members are unchanged.
#[verifier::external_body]
pub(crate) fn put_member(
    members: &mut serde_json::Map<String, serde_json::Value>,
    name: &str,
    value: serde_json::Value,
)
    ensures
        members_of(*final(members)) == members_of(*old(members)).insert(name@, tree(value)),
{
    members.insert(name.to_owned(), value);
}

/// `Value::as_object`: the members where the value is an object, `None`
/// where it is anything else.
#[verifier::external_body]
pub(crate) fn as_members(value: &serde_json::Value) -> (members: Option<
    &serde_json::Map<String, serde_json::Value>,
>)
    ensures
        match members {
            Some(members) => tree(*value) == JsonTree::Object(members_of(*members)),
            None => !(tree(*value) is Object),
        },
{
    value.as_object()
}

/// `Map::get`: the value that the name stands for, `None` where the object
/// has no member of that name.
#[verifier::external_body]
pub(crate) fn get_member<'a>(
    members: &'a serde_json::Map<String, serde_json::Value>,
    name: &str,
) -> (value: Option<&'a serde_json::Value>)
    ensures
        match value {
            Some(value) => members_of(*members).contains_key(name@) && members_of(
                *members,
            )[name@] == tree(*value),
            None => !members_of(*members).contains_key(name@),
        },
{
    members.get(name)
}

/// `Value::as_array`: the items where the value is an array, `None` where it
/// is anything else.
#[verifier::external_body]
pub(crate) fn as_items(value: &serde_json::Value) -> (items: Option<&Vec<serde_json::Value>>)
    ensures
        match items {
            Some(items) => tree(*value) == JsonTree::Array(
                items@.map_values(|item: serde_json::Value| tree(item)),
            ),
            None => !(tree(*value) is Array),
        },
{
    value.as_array()
}

/// `Value::as_str`: the text where the value is a string, `None` where it is
/// anything else.
#[verifier::external_body]
pub(crate) fn as_text(value: &serde_json::Value) -> (text: Option<&str>)
    ensures
        match text {
            Some(text) => tree(*value) == JsonTree::Text(text@),
            None => !(tree(*value) is Text),
        },
{
    value.as_str()
}

/// `Value::as_bool`: the boolean where the value is one, `None` where it is
/// anything else.
#[verifier::external_body]
pub(crate) fn as_flag(value: &serde_json::Value) -> (flag: Option<bool>)
    ensures
        match flag {
            Some(flag) => tree(*value) == JsonTree::Bool(flag),
            None => !(tree(*value) is Bool),
        },
{
    value.as_bool()
}

/// `Value::as_u64`: the integer where the value is an unsigned integer,
/// `None` where it is another number or no number.
#[verifier::external_body]
pub(crate) fn as_unsigned(value: &serde_json::Value) -> (integer: Option<u64>)
    ensures
        match integer {
            Some(integer) => tree(*value) == JsonTree::Number(NumberView::Unsigned(integer)),
            None => !(tree(*value) matches JsonTree::Number(NumberView::Unsigned(_))),
        },
{
    value.as_u64()
}

/// `Value::as_number`, and `clone` on what it finds: a copy of the number
/// where the value is a number, `None` where it is anything else.
#[verifier::external_body]
pub(crate) fn as_number(value: &serde_json::Value) -> (number: Option<serde_json::Number>)
    ensures
        match number {
            Some(number) => tree(*value) == JsonTree::Number(number_view(number)),
            None => !(tree(*value) is Number),
        },
{
    value.as_number().cloned()
}

/// `Value::is_null`: whether the value is `null`.
#[verifier::external_body]
pub(crate) fn is_null(value: &serde_json::Value) -> (null: bool)
    ensures
        null == (tree(*value) is Null),
{
    value.is_null()
}

/// `custom` of `serde::de::Error` on `serde_json::Error`: an error of the
/// encoder with the given message. Nothing is claimed of it.
#[verifier::external_body]
pub(crate) fn mismatch(message: &str) -> (error: EncoderError) {
    serde::de::Error::custom(message)
}

/// `serde_json::from_str` for a `Value`: the value that the text stands for,
/// or the parser's error where the text is no JSON.
#[verifier::external_body]
pub(crate) fn parse(text: &str) -> (value: Result<serde_json::Value, EncoderError>)
    ensures
        match value {
            Ok(value) => parsed(text@) == Some(tree(value)),
            Err(_) => parsed(text@) is None,
        },
{
    serde_json::from_str(text)
}

} // verus!
