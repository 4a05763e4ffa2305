//! The two questions this crate puts to the JSON library: whether a text is a
//! JSON document, and how a text is written as a JSON string value.
//!
//! Neither answer is proved here. Each is given a name, and the contracts of
//! the functions that build on them speak of that name; the two functions at
//! the end make the calls, and their contracts are taken on trust.

use vstd::prelude::*;
use crate::text::option_text;

verus! {

/// What `serde_json::from_str` reports when `text` is read as one
/// `serde_json::Value`: `None` where the parser accepts the whole text as a
/// single JSON document, otherwise its description of the fault at which it
/// stopped.
pub uninterp spec fn json_parse_error(text: Seq<char>) -> Option<Seq<char>>;

/// What `serde_json::to_string` writes for the string `text`: the text between
/// double quotes, with the characters that JSON does not allow bare in a
/// string written as escapes.
pub uninterp spec fn json_string_literal(text: Seq<char>) -> Seq<char>;

/// Reads `text` with `serde_json::from_str` as a `serde_json::Value` and hands
/// back the parser's error message, if it gave one.
///
/// Trusted: the result is [`json_parse_error`] of the text, which rests on the
/// parser being a function of its input alone.
#[verifier::external_body]
pub(crate) fn parse_error(text: &str) -> (r: Option<String>)
    ensures
        option_text(r) == json_parse_error(text@),
{
    match serde_json::from_str::<serde_json::Value>(text) {
        Ok(_) => None,
        Err(e) => Some(e.to_string()),
    }
}

/// Writes `text` as a JSON string value with `serde_json::to_string`.
///
/// Trusted: the result is [`json_string_literal`] of the text. The serialiser
/// writes a string into a buffer in memory, which has no failing step, so a
/// value always comes back.
#[verifier::external_body]
pub(crate) fn string_literal(text: &str) -> (r: String)
    ensures
        r@ == json_string_literal(text@),
{
    serde_json::to_string(text).unwrap_or_default()
}

} // verus!
