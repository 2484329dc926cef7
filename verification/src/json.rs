//! JSON documents, read and written by the `serde_json` crate.

use vstd::prelude::*;
use serde_json::Error;
use serde_json::Value;

verus! {

/// A JSON value of `serde_json`. What the adapters read of one goes by the
/// names below.
#[verifier::external_type_specification]
#[verifier::external_body]
pub struct ExValue(Value);

/// The `serde_json` crate's account of a failure to read or write JSON.
#[verifier::external_type_specification]
#[verifier::external_body]
pub struct ExError(Error);

/// The value that `text` is the JSON document of, or the parser's error
/// where `text` is not one JSON document: what `serde_json::from_str` makes
/// of it.
pub uninterp spec fn json_parsed(text: Seq<char>) -> Result<Value, Error>;

/// The JSON text of `value`, or the error where it has none: what
/// `serde_json::to_string` makes of it.
pub uninterp spec fn json_rendered(value: Value) -> Result<Seq<char>, Error>;

/// What `value` holds under its keys, as far as texts go: a key of the
/// object is bound to `Some` of its text where its member is a string and to
/// `None` where the member is anything else. A value that is no object has
/// no keys.
pub uninterp spec fn json_text_members(value: Value) -> Map<Seq<char>, Option<Seq<char>>>;

/// The `serde_json` crate's wording of `error`: what the `Display` impl of
/// `Error` writes.
pub uninterp spec fn json_error_text(error: Error) -> Seq<char>;

/// Calls `serde_json::from_str` for a `Value`. The parser is a function of
/// its input alone, so its outcome has the name [`json_parsed`].
#[verifier::external_body]
pub(crate) fn parse_json(text: &str) -> (parsed: Result<Value, Error>)
    ensures
        parsed == json_parsed(text@),
{
    serde_json::from_str(text)
}

/// Calls `serde_json::to_string` on a `Value`. The outcome depends on the
/// value alone and is named [`json_rendered`].
#[verifier::external_body]
pub(crate) fn render_json(value: &Value) -> (rendered: Result<String, Error>)
    ensures
        match rendered {
            Ok(text) => json_rendered(*value) == Ok::<Seq<char>, Error>(text@),
            Err(error) => json_rendered(*value) == Err::<Seq<char>, Error>(error),
        },
{
    serde_json::to_string(value)
}

/// Calls `Value::get` with a key and hands the member out as a text, by
/// `Value::as_str`: `None` where the value has no such key, `Some(None)`
/// where the member is no string.
#[verifier::external_body]
pub(crate) fn text_member(value: &Value, key: &str) -> (member: Option<Option<String>>)
    ensures
        match member {
            Some(Some(text)) => json_text_members(*value).contains_key(key@) && json_text_members(
                *value,
            )[key@] == Some(text@),
            Some(None) => json_text_members(*value).contains_key(key@) && json_text_members(
                *value,
            )[key@] is None,
            None => !json_text_members(*value).contains_key(key@),
        },
{
    value.get(key).map(|member| member.as_str().map(String::from))
}

/// Calls the `Display` impl of `serde_json::Error`: the crate's wording of
/// the failure, which depends on the error alone and is named
/// [`json_error_text`].
#[verifier::external_body]
pub(crate) fn error_text(error: &Error) -> (text: String)
    ensures
        text@ == json_error_text(*error),
{
    error.to_string()
}

} // verus!
