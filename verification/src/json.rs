//! Reading members out of JSON documents and writing JSON literals.
//!
//! Parsing and escaping are done by `serde_json`; nothing here is proved of
//! them. Each outcome is given a name, so that callers can state exactly
//! what they return in terms of it.

use vstd::prelude::*;

verus! {

/// The string stored under `key` in the top-level object of `document`, as
/// `serde_json` reads it; `None` where the text is not JSON, is not an
/// object, has no such member, or the member is not a string.
pub uninterp spec fn json_text_member(document: Seq<char>, key: Seq<char>) -> Option<Seq<char>>;

/// The integer stored under `key` in the top-level object of `document`, as
/// `serde_json` reads it into an `i64`; `None` where there is no such
/// integer member or it does not fit.
pub uninterp spec fn json_i64_member(document: Seq<char>, key: Seq<char>) -> Option<i64>;

/// The integer stored under `key` in the top-level object of `document`, as
/// `serde_json` reads it into a `u64`; `None` where there is no such
/// integer member or it does not fit.
pub uninterp spec fn json_u64_member(document: Seq<char>, key: Seq<char>) -> Option<u64>;

/// The JSON string literal, quotes and escapes included, that `serde_json`
/// writes for `text`.
pub uninterp spec fn json_string_literal(text: Seq<char>) -> Seq<char>;

/// The message with which `serde_json` refuses `document`; `None` where it
/// is JSON.
pub uninterp spec fn json_syntax_error(document: Seq<char>) -> Option<Seq<char>>;

/// Whether the member stored under `key` in the top-level object of
/// `document` is an array, as `serde_json` reads it; `None` where the text
/// is not JSON, is not an object or has no such member.
pub uninterp spec fn json_member_is_array(document: Seq<char>, key: Seq<char>) -> Option<bool>;

/// Model of an optional string.
pub open spec fn text_view(text: Option<String>) -> Option<Seq<char>> {
    match text {
        Some(text) => Some(text@),
        None => None,
    }
}

/// Calls `serde_json::from_str` to parse `document` into a
/// `serde_json::Value`, then `Value::get` and `Value::as_str`. Trusted: the
/// result is the one named by [`json_text_member`], which says only that it
/// depends on the document and the key alone.
#[verifier::external_body]
pub(crate) fn text_member(document: &str, key: &str) -> (found: Option<String>)
    ensures
        text_view(found) == json_text_member(document@, key@),
{
    let parsed: serde_json::Value = serde_json::from_str(document).ok()?;
    parsed.get(key)?.as_str().map(str::to_owned)
}

/// Calls `serde_json::from_str` to parse `document` into a
/// `serde_json::Value`, then `Value::get` and `Value::as_i64`. Trusted: the
/// result is the one named by [`json_i64_member`].
#[verifier::external_body]
pub(crate) fn i64_member(document: &str, key: &str) -> (found: Option<i64>)
    ensures
        found == json_i64_member(document@, key@),
{
    let parsed: serde_json::Value = serde_json::from_str(document).ok()?;
    parsed.get(key)?.as_i64()
}

/// Calls `serde_json::from_str` to parse `document` into a
/// `serde_json::Value`, then `Value::get` and `Value::as_u64`. Trusted: the
/// result is the one named by [`json_u64_member`].
#[verifier::external_body]
pub(crate) fn u64_member(document: &str, key: &str) -> (found: Option<u64>)
    ensures
        found == json_u64_member(document@, key@),
{
    let parsed: serde_json::Value = serde_json::from_str(document).ok()?;
    parsed.get(key)?.as_u64()
}

/// Calls `serde_json::from_str` to parse `document` into a
/// `serde_json::Value` and, where that fails, turns the error into its
/// message. Trusted: the result is the one named by [`json_syntax_error`].
#[verifier::external_body]
pub(crate) fn syntax_error(document: &str) -> (error: Option<String>)
    ensures
        text_view(error) == json_syntax_error(document@),
{
    serde_json::from_str::<serde_json::Value>(document).err().map(|error| error.to_string())
}

/// Calls `serde_json::from_str` to parse `document` into a
/// `serde_json::Value`, then `Value::get` and `Value::is_array`. Trusted: the
/// result is the one named by [`json_member_is_array`].
#[verifier::external_body]
pub(crate) fn member_is_array(document: &str, key: &str) -> (found: Option<bool>)
    ensures
        found == json_member_is_array(document@, key@),
{
    let parsed: serde_json::Value = serde_json::from_str(document).ok()?;
    parsed.get(key).map(serde_json::Value::is_array)
}

/// Calls `serde_json::to_string` on a string slice, which cannot fail for
/// that type. Trusted: the result is the one named by
/// [`json_string_literal`].
#[verifier::external_body]
pub(crate) fn string_literal(text: &str) -> (literal: String)
    ensures
        literal@ == json_string_literal(text@),
{
    serde_json::to_string(text).unwrap_or_default()
}

} // verus!
