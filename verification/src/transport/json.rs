//! The few `serde_json` calls that look into a JSON text.

use vstd::prelude::*;

verus! {

/// `serde_json::Value`, carried through unseen.
#[verifier::external_type_specification]
#[verifier::external_body]
pub struct ExValue(serde_json::Value);

/// `serde_json::Error`, carried through unseen.
#[verifier::external_type_specification]
#[verifier::external_body]
pub struct ExError(serde_json::Error);

/// The members of a value that is an object, by key, each with its text if it
/// is a string. Empty for any other value.
pub uninterp spec fn value_members(value: serde_json::Value) -> Map<
    Seq<char>,
    Option<Seq<char>>,
>;

/// The text of a value that is a string.
pub uninterp spec fn value_text(value: serde_json::Value) -> Option<Seq<char>>;

/// The members, as [`value_members`] gives them, of the value that a JSON text
/// stands for; `None` if the bytes are no JSON text.
pub uninterp spec fn json_members(bytes: Seq<u8>) -> Option<Map<Seq<char>, Option<Seq<char>>>>;

/// Calls `serde_json::from_slice::<serde_json::Value>`. Whether the bytes parse,
/// and what the value's members are, depends on the bytes alone.
#[verifier::external_body]
pub(crate) fn parse(bytes: &[u8]) -> (parsed: Result<serde_json::Value, serde_json::Error>)
    ensures
        match parsed {
            Ok(value) => json_members(bytes@) == Some(value_members(value)),
            Err(_) => json_members(bytes@) is None,
        },
{
    serde_json::from_slice::<serde_json::Value>(bytes)
}

/// Calls `serde_json::Value::get` with a string key. It finds a member exactly
/// if the value is an object that has one under that key.
#[verifier::external_body]
pub(crate) fn member<'a>(value: &'a serde_json::Value, key: &str) -> (found: Option<
    &'a serde_json::Value,
>)
    ensures
        match found {
            Some(inner) => {
                &&& value_members(*value).dom().contains(key@)
                &&& value_members(*value)[key@] == value_text(*inner)
            },
            None => !value_members(*value).dom().contains(key@),
        },
{
    value.get(key)
}

/// Calls `serde_json::Value::as_str`. It gives the text of a string and nothing
/// for any other value.
#[verifier::external_body]
pub(crate) fn text<'a>(value: &'a serde_json::Value) -> (found: Option<&'a str>)
    ensures
        match found {
            Some(s) => value_text(*value) == Some(s@),
            None => value_text(*value) is None,
        },
{
    value.as_str()
}

} // verus!
