//! JSON text: the pieces that the documents are written with.
//!
//! Punctuation, member names, fixed tags, booleans and unsigned integers are
//! written here and proved to be the text that the spec functions give. The
//! escaping of a caller's text and the rendering of a JSON number are the
//! encoder's.

use vstd::prelude::*;
use vstd::string::*;

use crate::error::Error;
use crate::json::encoder::{escaped, quote};
use crate::json::tree::NumberView;
use crate::validation::optional_text;

verus! {

/// The character of a decimal digit.
pub open spec fn digit(value: nat) -> char
    recommends
        value < 10,
{
    if value == 0 {
        '0'
    } else if value == 1 {
        '1'
    } else if value == 2 {
        '2'
    } else if value == 3 {
        '3'
    } else if value == 4 {
        '4'
    } else if value == 5 {
        '5'
    } else if value == 6 {
        '6'
    } else if value == 7 {
        '7'
    } else if value == 8 {
        '8'
    } else {
        '9'
    }
}

/// An unsigned integer in decimal, without leading zeros.
pub open spec fn decimal(value: nat) -> Seq<char>
    decreases value,
{
    if value < 10 {
        seq![digit(value)]
    } else {
        decimal(value / 10).push(digit(value % 10))
    }
}

/// The text of a JSON number: an unsigned integer in decimal, another number
/// as the encoder writes it.
pub open spec fn number(value: NumberView) -> Seq<char> {
    match value {
        NumberView::Unsigned(value) => decimal(value as nat),
        NumberView::Other(written) => written,
    }
}

/// The text of a boolean.
pub open spec fn boolean(value: bool) -> Seq<char> {
    if value {
        seq!['t', 'r', 'u', 'e']
    } else {
        seq!['f', 'a', 'l', 's', 'e']
    }
}

/// A string literal for a text that needs no escape: the text between
/// double quotes.
pub open spec fn tag(text: Seq<char>) -> Seq<char> {
    seq!['"'] + text + seq!['"']
}

/// A member of an object: the name between double quotes, a colon, and the
/// text of the value.
pub open spec fn member(name: Seq<char>, value: Seq<char>) -> Seq<char> {
    seq!['"'] + name + seq!['"', ':'] + value
}

/// The member that an optional value gives: one where the value is present,
/// none where it is absent.
pub open spec fn optional_member(name: Seq<char>, value: Option<Seq<char>>) -> Seq<Seq<char>> {
    match value {
        Some(value) => seq![member(name, value)],
        None => Seq::empty(),
    }
}

/// Whether the encoder writes a string literal for the text.
pub open spec fn quotable(text: Seq<char>) -> bool {
    escaped(text) is Some
}

/// The JSON string literal of a text, as the encoder writes it.
pub open spec fn quoted(text: Seq<char>) -> Seq<char>
    recommends
        quotable(text),
{
    escaped(text)->0
}

/// Whether an optional text is absent or one that the encoder writes a
/// string literal for.
pub open spec fn optional_quotable(text: Option<Seq<char>>) -> bool {
    text matches Some(text) ==> quotable(text)
}

/// Whether `outcome` is what writing gives: the text where the encoder
/// writes every string in it, else an error of the encoder.
pub open spec fn is_written(outcome: Result<String, Error>, writable: bool, text: Seq<char>) -> bool {
    if writable {
        outcome matches Ok(written) && written@ == text
    } else {
        outcome matches Err(error) && error is SerdeError
    }
}

/// Whether `outcome` is what writing the members of an object gives: the
/// members where the encoder writes every string in them, else an error of
/// the encoder.
pub open spec fn are_written(
    outcome: Result<Vec<String>, Error>,
    writable: bool,
    members: Seq<Seq<char>>,
) -> bool {
    if writable {
        outcome matches Ok(written) && texts(written@) == members
    } else {
        outcome matches Err(error) && error is SerdeError
    }
}

/// The JSON string literal of an optional text.
pub open spec fn optional_quoted(text: Option<Seq<char>>) -> Option<Seq<char>> {
    match text {
        Some(text) => Some(quoted(text)),
        None => None,
    }
}

/// The string literal of an optional text that needs no escape.
pub open spec fn optional_tag(text: Option<Seq<char>>) -> Option<Seq<char>> {
    match text {
        Some(text) => Some(tag(text)),
        None => None,
    }
}

/// The parts one after the other, with a comma between each two.
pub open spec fn joined(parts: Seq<Seq<char>>) -> Seq<char>
    decreases parts.len(),
{
    if parts.len() == 0 {
        Seq::empty()
    } else if parts.len() == 1 {
        parts[0]
    } else {
        joined(parts.drop_last()) + seq![','] + parts.last()
    }
}

/// An object with the given members, in their order.
pub open spec fn object(members: Seq<Seq<char>>) -> Seq<char> {
    seq!['{'] + joined(members) + seq!['}']
}

/// An array with the given items, in their order.
pub open spec fn array(items: Seq<Seq<char>>) -> Seq<char> {
    seq!['['] + joined(items) + seq![']']
}

/// The texts that a sequence of strings holds.
pub open spec fn texts(strings: Seq<String>) -> Seq<Seq<char>> {
    strings.map_values(|string: String| string@)
}

fn digit_str(value: u8) -> (text: &'static str)
    requires
        value < 10,
    ensures
        text@ == seq![digit(value as nat)],
{
    proof {
        reveal_strlit("0");
        reveal_strlit("1");
        reveal_strlit("2");
        reveal_strlit("3");
        reveal_strlit("4");
        reveal_strlit("5");
        reveal_strlit("6");
        reveal_strlit("7");
        reveal_strlit("8");
        reveal_strlit("9");
    }
    let text = if value == 0 {
        "0"
    } else if value == 1 {
        "1"
    } else if value == 2 {
        "2"
    } else if value == 3 {
        "3"
    } else if value == 4 {
        "4"
    } else if value == 5 {
        "5"
    } else if value == 6 {
        "6"
    } else if value == 7 {
        "7"
    } else if value == 8 {
        "8"
    } else {
        "9"
    };
    assert(text@ =~= seq![digit(value as nat)]);
    text
}

/// Writes an unsigned integer in decimal.
pub fn write_decimal(value: u64) -> (text: String)
    ensures
        text@ == decimal(value as nat),
    decreases value,
{
    if value < 10 {
        String::from_str(digit_str(value as u8))
    } else {
        let mut text = write_decimal(value / 10);
        text.append(digit_str((value % 10) as u8));
        assert(text@ =~= decimal(value as nat));
        text
    }
}

/// Writes a boolean.
pub fn write_boolean(value: bool) -> (text: String)
    ensures
        text@ == boolean(value),
{
    proof {
        reveal_strlit("true");
        reveal_strlit("false");
    }
    let text = if value {
        String::from_str("true")
    } else {
        String::from_str("false")
    };
    assert(text@ =~= boolean(value));
    text
}

/// Writes a string literal for a text that needs no escape.
pub fn write_tag(text: &str) -> (literal: String)
    ensures
        literal@ == tag(text@),
{
    proof {
        reveal_strlit("\"");
    }
    let mut literal = String::from_str("\"");
    literal.append(text);
    literal.append("\"");
    assert(literal@ =~= tag(text@));
    literal
}

/// Writes a member of an object from its name and the text of its value.
pub fn write_member(name: &str, value: &str) -> (text: String)
    ensures
        text@ == member(name@, value@),
{
    proof {
        reveal_strlit("\"");
        reveal_strlit("\":");
    }
    let mut text = String::from_str("\"");
    text.append(name);
    text.append("\":");
    text.append(value);
    assert(text@ =~= member(name@, value@));
    text
}

/// What becomes of the encoder's answer: its text as it is, or its error as
/// the crate's own.
pub fn encoded(answer: Result<String, serde_json::Error>) -> (text: Result<String, Error>)
    ensures
        match answer {
            Ok(written) => text == Ok::<String, Error>(written),
            Err(cause) => text == Err::<String, Error>(Error::SerdeError(cause)),
        },
{
    match answer {
        Ok(written) => Ok(written),
        Err(cause) => Err(Error::from(cause)),
    }
}

/// Writes the JSON string literal of a text. Where the encoder fails, its
/// error is returned as `SerdeError`.
pub fn write_quoted(text: &str) -> (literal: Result<String, Error>)
    ensures
        is_written(literal, quotable(text@), quoted(text@)),
{
    encoded(quote(text))
}

/// Of a sequence that ends in `part`, `joined` is the text joined so far, a
/// comma where there was a part before, and `part`.
pub proof fn lemma_joined_push(parts: Seq<Seq<char>>, part: Seq<char>)
    ensures
        joined(parts.push(part)) == if parts.len() == 0 {
            part
        } else {
            joined(parts) + seq![','] + part
        },
{
    assert(parts.push(part).drop_last() =~= parts);
}

/// Writes the parts one after the other, with a comma between each two.
pub fn write_joined(parts: &Vec<String>) -> (text: String)
    ensures
        text@ == joined(texts(parts@)),
{
    proof {
        reveal_strlit(",");
    }
    let mut text = String::new();
    let mut index: usize = 0;
    while index < parts.len()
        invariant
            index <= parts.len(),
            text@ == joined(texts(parts@).take(index as int)),
            ","@ == seq![','],
        decreases parts.len() - index,
    {
        if index > 0 {
            text.append(",");
        }
        text.append(parts[index].as_str());
        proof {
            let done = texts(parts@).take(index as int);
            let part = parts@[index as int]@;
            lemma_joined_push(done, part);
            assert(texts(parts@).take(index + 1) =~= done.push(part));
            assert(text@ =~= joined(done.push(part)));
        }
        index += 1;
    }
    assert(texts(parts@).take(index as int) =~= texts(parts@));
    text
}

/// Adds the member of a value that is already written, where there is one.
pub fn with_member(members: Vec<String>, name: &str, value: Option<String>) -> (extended: Vec<
    String,
>)
    ensures
        texts(extended@) == texts(members@) + optional_member(name@, optional_text(value)),
{
    let mut extended = members;
    match value {
        Some(value) => {
            extended.push(write_member(name, value.as_str()));
            assert(texts(extended@) =~= texts(members@) + optional_member(
                name@,
                optional_text(Some(value)),
            ));
        },
        None => {
            assert(texts(extended@) =~= texts(members@) + optional_member(
                name@,
                optional_text(None),
            ));
        },
    }
    extended
}

/// Adds the member of an optional text, written as a JSON string literal.
/// An absent text adds nothing and cannot fail.
pub fn with_quoted_member(members: Vec<String>, name: &str, text: &Option<String>) -> (extended:
    Result<Vec<String>, Error>)
    ensures
        are_written(
            extended,
            optional_quotable(optional_text(*text)),
            texts(members@) + optional_member(name@, optional_quoted(optional_text(*text))),
        ),
{
    match text {
        Some(text) => {
            let literal = write_quoted(text.as_str())?;
            Ok(with_member(members, name, Some(literal)))
        },
        None => Ok(with_member(members, name, None)),
    }
}

/// Adds the member of an optional fixed name, written between double quotes.
pub fn with_tag_member(members: Vec<String>, name: &str, text: Option<&str>) -> (extended: Vec<
    String,
>)
    ensures
        texts(extended@) == texts(members@) + optional_member(
            name@,
            optional_tag(
                match text {
                    Some(text) => Some(text@),
                    None => None,
                },
            ),
        ),
{
    match text {
        Some(text) => with_member(members, name, Some(write_tag(text))),
        None => with_member(members, name, None),
    }
}

/// Writes an object with the given members, in their order.
pub fn write_object(members: &Vec<String>) -> (text: String)
    ensures
        text@ == object(texts(members@)),
{
    proof {
        reveal_strlit("{");
        reveal_strlit("}");
    }
    let mut text = String::from_str("{");
    text.append(write_joined(members).as_str());
    text.append("}");
    assert(text@ =~= object(texts(members@)));
    text
}

/// Writes an array with the given items, in their order.
pub fn write_array(items: &Vec<String>) -> (text: String)
    ensures
        text@ == array(texts(items@)),
{
    proof {
        reveal_strlit("[");
        reveal_strlit("]");
    }
    let mut text = String::from_str("[");
    text.append(write_joined(items).as_str());
    text.append("]");
    assert(text@ =~= array(texts(items@)));
    text
}

} // verus!
