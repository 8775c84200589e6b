//! Names for what serde_json returns when this crate reads a field out of a
//! JSON text, and the trusted wrappers that apply them.
//!
//! Each name stands for the result of parsing a text as JSON and looking one
//! field up; that result is a function of the text and the key alone, so the
//! names are sound, and every contract above speaks through them.

use vstd::prelude::*;

verus! {

/// The string value of top-level field `key` of the JSON object `s`, if `s`
/// parses as a JSON object holding a string there.
pub uninterp spec fn json_str_at(s: Seq<char>, key: Seq<char>) -> Option<Seq<char>>;

/// The string value of field `inner` of the object under top-level field
/// `outer` of the JSON object `s`, if present.
pub uninterp spec fn json_str_at2(s: Seq<char>, outer: Seq<char>, inner: Seq<char>) -> Option<
    Seq<char>,
>;

/// The boolean value of top-level field `key` of the JSON object `s`, if `s`
/// parses as a JSON object holding a boolean there.
pub uninterp spec fn json_bool_at(s: Seq<char>, key: Seq<char>) -> Option<bool>;

/// Relies on serde_json::from_str, Value::get and Value::as_str: parses `s`
/// as JSON and reads the string field `key` of the top-level object.
#[verifier::external_body]
pub(crate) fn json_string_field(s: &str, key: &str) -> (r: Option<String>)
    ensures
        match r {
            Some(v) => json_str_at(s@, key@) == Some(v@),
            None => json_str_at(s@, key@) is None,
        },
{
    let v: serde_json::Value = match serde_json::from_str(s) {
        Ok(v) => v,
        Err(_) => return None,
    };
    v.get(key).and_then(|f| f.as_str()).map(|x| x.to_string())
}

/// Relies on serde_json::from_str, Value::get and Value::as_str: parses `s`
/// as JSON and reads the string field `inner` of the object stored under the
/// top-level field `outer`.
#[verifier::external_body]
pub(crate) fn json_string_field2(s: &str, outer: &str, inner: &str) -> (r: Option<String>)
    ensures
        match r {
            Some(v) => json_str_at2(s@, outer@, inner@) == Some(v@),
            None => json_str_at2(s@, outer@, inner@) is None,
        },
{
    let v: serde_json::Value = match serde_json::from_str(s) {
        Ok(v) => v,
        Err(_) => return None,
    };
    v.get(outer).and_then(|o| o.get(inner)).and_then(|f| f.as_str()).map(|x| x.to_string())
}

/// Relies on serde_json::from_str, Value::get and Value::as_bool: parses `s`
/// as JSON and reads the boolean field `key` of the top-level object.
#[verifier::external_body]
pub(crate) fn json_bool_field(s: &str, key: &str) -> (r: Option<bool>)
    ensures
        r == json_bool_at(s@, key@),
{
    let v: serde_json::Value = match serde_json::from_str(s) {
        Ok(v) => v,
        Err(_) => return None,
    };
    v.get(key).and_then(|f| f.as_bool())
}

} // verus!
