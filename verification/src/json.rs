//! Reading single values out of a JSON document.

use vstd::prelude::*;

verus! {

/// What a JSON document holds at some place.
#[derive(Debug, Clone)]
pub struct JsonFound {
    /// The value, where it is a string.
    pub text: Option<String>,
    /// The value, where it is an unsigned integer of 64 bits.
    pub number: Option<u64>,
    /// The value as it is written in JSON, where there is one.
    pub shown: Option<String>,
}

/// What `serde_json` finds in a document at a JSON pointer: the value as a
/// string, as an unsigned integer, and as it is written in JSON, each where
/// there is such a value.  `None` where the document is no JSON.
pub uninterp spec fn json_found_at(body: Seq<char>, pointer: Seq<char>) -> Option<
    (Option<Seq<char>>, Option<u64>, Option<Seq<char>>),
>;

/// What a lookup found, in characters.
pub open spec fn found_view(found: Option<JsonFound>) -> Option<
    (Option<Seq<char>>, Option<u64>, Option<Seq<char>>),
> {
    match found {
        Some(f) => Some((crate::text::opt_text(f.text), f.number, crate::text::opt_text(f.shown))),
        None => None,
    }
}

/// The text that a document holds at a JSON pointer: `None` where the
/// document is no JSON, `Some(None)` where the pointer leads to no value or
/// to one that is no string.
pub open spec fn json_text_at(body: Seq<char>, pointer: Seq<char>) -> Option<Option<Seq<char>>> {
    match json_found_at(body, pointer) {
        Some(found) => Some(found.0),
        None => None,
    }
}

/// The number that a document holds at a JSON pointer: `None` where the
/// document is no JSON, `Some(None)` where the pointer leads to no value or
/// to one that is no unsigned integer of 64 bits.
pub open spec fn json_u64_at(body: Seq<char>, pointer: Seq<char>) -> Option<Option<u64>> {
    match json_found_at(body, pointer) {
        Some(found) => Some(found.1),
        None => None,
    }
}

/// How the value that a document holds at a JSON pointer is written in
/// JSON, `null` where the pointer leads to no value; `None` where the
/// document is no JSON.
pub open spec fn json_shown_at(body: Seq<char>, pointer: Seq<char>) -> Option<Seq<char>> {
    match json_found_at(body, pointer) {
        Some(found) => match found.2 {
            Some(shown) => Some(shown),
            None => Some("null"@),
        },
        None => None,
    }
}

/// The characters of a text that was looked for.
pub open spec fn found_text(found: Option<Option<String>>) -> Option<Option<Seq<char>>> {
    match found {
        Some(Some(text)) => Some(Some(text@)),
        Some(None) => Some(None),
        None => None,
    }
}

/// The characters of a printed value.
pub open spec fn shown_text(shown: Option<String>) -> Option<Seq<char>> {
    match shown {
        Some(text) => Some(text@),
        None => None,
    }
}

/// Parses a document with `serde_json::from_str` and looks a value up with
/// `Value::pointer`; the value is read with `Value::as_str` and
/// `Value::as_u64` and printed as `serde_json` prints it.  Trusted: the
/// result is what those calls give, which depends on document and pointer
/// alone.
#[verifier::external_body]
pub(crate) fn json_lookup(body: &str, pointer: &str) -> (found: Option<JsonFound>)
    ensures
        found_view(found) == json_found_at(body@, pointer@),
{
    let value: serde_json::Value = serde_json::from_str(body).ok()?;
    let at = value.pointer(pointer);
    Some(JsonFound {
        text: at.and_then(|v| v.as_str()).map(str::to_string),
        number: at.and_then(|v| v.as_u64()),
        shown: at.map(|v| v.to_string()),
    })
}

/// The text that a document holds at a JSON pointer.
pub fn json_text(body: &str, pointer: &str) -> (found: Option<Option<String>>)
    ensures
        found_text(found) == json_text_at(body@, pointer@),
{
    match json_lookup(body, pointer) {
        Some(found) => Some(found.text),
        None => None,
    }
}

/// How the value that a document holds at a JSON pointer is written.
pub fn json_shown(body: &str, pointer: &str) -> (shown: Option<String>)
    ensures
        shown_text(shown) == json_shown_at(body@, pointer@),
{
    match json_lookup(body, pointer) {
        Some(found) => match found.shown {
            Some(shown) => Some(shown),
            None => Some("null".to_owned()),
        },
        None => None,
    }
}

/// The number that a document holds at a JSON pointer.
pub fn json_u64(body: &str, pointer: &str) -> (found: Option<Option<u64>>)
    ensures
        found == json_u64_at(body@, pointer@),
{
    match json_lookup(body, pointer) {
        Some(found) => Some(found.number),
        None => None,
    }
}

} // verus!
