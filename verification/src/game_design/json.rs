//! Reading JSON text through `serde_json`.

use vstd::prelude::*;

verus! {

/// A JSON value as `serde_json` holds it.
#[verifier::external_type_specification]
#[verifier::external_body]
pub struct ExJsonValue(serde_json::Value);

/// The reason for which `serde_json` refused a text.
#[verifier::external_type_specification]
#[verifier::external_body]
pub struct ExJsonError(serde_json::Error);

/// The string members of a JSON value: for a JSON object, each key whose value
/// is a JSON string, with that string; for any other value, nothing.
pub uninterp spec fn json_text_members(value: serde_json::Value) -> Map<Seq<char>, Seq<char>>;

/// The text of a JSON value: the string where the value is a JSON string,
/// nothing for any other value.
pub uninterp spec fn json_text_of(value: serde_json::Value) -> Option<Seq<char>>;

/// What `serde_json` makes of a text: `None` where the text is not one JSON
/// value, else the string members of that value.
pub uninterp spec fn json_document(text: Seq<char>) -> Option<Map<Seq<char>, Seq<char>>>;

/// Parses `text` with `serde_json::from_str` into a `serde_json::Value`.
///
/// Not proved: that the outcome depends on the text alone. It is `Ok` exactly
/// for the texts that `json_document` knows, and the value then has the string
/// members that `json_document` gives.
#[verifier::external_body]
pub(crate) fn parse_json(text: &str) -> (parsed: Result<serde_json::Value, serde_json::Error>)
    ensures
        match parsed {
            Ok(value) => json_document(text@) == Some(json_text_members(value)),
            Err(_) => json_document(text@) is None,
        },
{
    serde_json::from_str::<serde_json::Value>(text)
}

/// Looks `key` up with `serde_json::Value::get`, which finds a member only in
/// a JSON object that holds the key.
///
/// Not proved: that a member which is found is a string exactly where the key
/// is among the value's string members, with that string as its text, and that
/// a key for which nothing is found is not among them.
#[verifier::external_body]
pub(crate) fn json_member<'a>(value: &'a serde_json::Value, key: &str) -> (member: Option<
    &'a serde_json::Value,
>)
    ensures
        match member {
            Some(found) => match json_text_of(*found) {
                Some(text) => json_text_members(*value).contains_key(key@) && json_text_members(
                    *value,
                )[key@] == text,
                None => !json_text_members(*value).contains_key(key@),
            },
            None => !json_text_members(*value).contains_key(key@),
        },
{
    value.get(key)
}

/// Reads a value as text with `serde_json::Value::as_str`, which gives the
/// string of a JSON string and nothing for any other value.
///
/// Not proved: that the result is the text that `json_text_of` stands for.
#[verifier::external_body]
pub(crate) fn json_text<'a>(value: &'a serde_json::Value) -> (text: Option<&'a str>)
    ensures
        match text {
            Some(string) => json_text_of(*value) == Some(string@),
            None => json_text_of(*value) is None,
        },
{
    value.as_str()
}

/// The string that `value` holds under `key`, if it is an object that holds a
/// string there.
pub fn json_text_member(value: &serde_json::Value, key: &str) -> (member: Option<String>)
    ensures
        match member {
            Some(text) => json_text_members(*value).contains_key(key@) && json_text_members(
                *value,
            )[key@] == text@,
            None => !json_text_members(*value).contains_key(key@),
        },
{
    match json_member(value, key) {
        Some(found) => match json_text(found) {
            Some(text) => Some(text.to_owned()),
            None => None,
        },
        None => None,
    }
}

} // verus!
