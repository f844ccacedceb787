//! What the library has from the JSON crate: parsing a text, reading a parsed
//! value, and quoting a string. None of it is proved here; each contract names
//! the crate's result and says no more of it.

use crate::measure::within_limits;
use rustc_serialize::json::Json;
use vstd::prelude::*;

verus! {

/// A parsed JSON value of `rustc_serialize`. Nothing of its inside is visible
/// to the proofs.
#[verifier::external_type_specification]
#[verifier::external_body]
pub struct ExJson(Json);

/// The value that `Json::from_str` builds from a text, where it accepts it.
/// It is spoken of only for texts within the limits of the measure module.
pub uninterp spec fn json_of_text(text: Seq<char>) -> Option<Json>;

/// The items of a value, as `Json::as_array` gives them, where it is an array.
pub uninterp spec fn json_items(value: Json) -> Option<Seq<Json>>;

/// The member that `Json::find` gives for a key, where the value is an object
/// that has it.
pub uninterp spec fn json_member(value: Json, key: Seq<char>) -> Option<Json>;

/// The number that `Json::as_u64` gives for a value, where it gives one.
pub uninterp spec fn json_number(value: Json) -> Option<u64>;

/// The text that `Json::as_string` gives for a value, where it is a string.
pub uninterp spec fn json_string(value: Json) -> Option<Seq<char>>;

/// The JSON string literal that the crate's encoder writes for a text: the
/// text between double quotes, with the escapes of its table.
pub uninterp spec fn json_quoted(text: Seq<char>) -> Seq<char>;

/// Whether the crate's encoder writes a character otherwise than as itself:
/// the double quote, the backslash, the control characters below the space,
/// and the delete character.
pub open spec fn needs_escape(c: char) -> bool {
    c == '"' || c == '\\' || (c as u32) < 0x20 || c as u32 == 0x7f
}

/// Whether a text holds no character that the encoder escapes.
pub open spec fn is_plain(text: Seq<char>) -> bool {
    forall|i: int| 0 <= i < text.len() ==> !needs_escape(#[trigger] text[i])
}

/// A text between two double quotes.
pub open spec fn in_quotes(text: Seq<char>) -> Seq<char> {
    seq!['"'] + text + seq!['"']
}

/// Calls `Json::from_str`. The result is the parsed value, or nothing where
/// the parser reports an error; the contract only names it. The text must be
/// within the limits, because the parser calls itself for each array or
/// object inside another, addresses the keys of the open objects with 16
/// bits, counts the items of an array in 32 bits, and, where a comma stands
/// before the `}` of an object inside another value, drops one level too many
/// and later fails on it. A text with an exponent is left out as well: the
/// parser raises ten to it with `f64::powi`, whose result is not the same
/// everywhere, and the name stands for one value.
#[verifier::external_body]
pub(crate) fn parse(text: &str) -> (value: Option<Json>)
    requires
        within_limits(text@),
    ensures
        value == json_of_text(text@),
{
    Json::from_str(text).ok()
}

/// Calls `Json::as_array` and copies the items out. There are none where the
/// value is no array; the contract only names what comes back.
#[verifier::external_body]
pub(crate) fn items(value: &Json) -> (list: Option<Vec<Json>>)
    ensures
        match list {
            Some(v) => json_items(*value) == Some(v@),
            None => json_items(*value).is_none(),
        },
{
    value.as_array().cloned()
}

/// Calls `Json::find` and copies the member out. There is none where the
/// value is no object or lacks the key; the contract only names what comes
/// back.
#[verifier::external_body]
pub(crate) fn member(value: &Json, key: &str) -> (found: Option<Json>)
    ensures
        found == json_member(*value, key@),
{
    value.find(key).cloned()
}

/// Calls `Json::as_u64`, which gives the number of an unsigned or a
/// non-negative signed integer and nothing for any other value. The contract
/// only names the result.
#[verifier::external_body]
pub(crate) fn number(value: &Json) -> (n: Option<u64>)
    ensures
        n == json_number(*value),
{
    value.as_u64()
}

/// Calls `Json::as_string` and copies the text out. There is none where the
/// value is no string; the contract only names what comes back.
#[verifier::external_body]
pub(crate) fn string(value: &Json) -> (text: Option<String>)
    ensures
        match text {
            Some(s) => json_string(*value) == Some(s@),
            None => json_string(*value).is_none(),
        },
{
    value.as_string().map(|s| s.to_string())
}

/// Has the crate's encoder write a text as a JSON string literal, through
/// `Json::String` and its `to_string`. The contract names the result, and says
/// what it is for a plain text: the encoder replaces only the characters that
/// need an escape and copies the others between two quotes.
#[verifier::external_body]
pub(crate) fn quoted(text: &str) -> (literal: String)
    ensures
        literal@ == json_quoted(text@),
        is_plain(text@) ==> literal@ == in_quotes(text@),
{
    Json::String(text.to_string()).to_string()
}

} // verus!
