//! JSON values as `serde_json` holds them. A value is carried through this
//! crate unread; the few questions asked of one are put to `serde_json` and
//! the answers are given names.

use crate::text::{join2, join3, Text};
use vstd::prelude::*;

verus! {

#[verifier::external_type_specification]
#[verifier::external_body]
pub struct ExJsonValue(serde_json::Value);

/// The member of a JSON object under `key`: none if `v` is no object or has
/// no such member.
pub uninterp spec fn json_member(v: serde_json::Value, key: Text) -> Option<serde_json::Value>;

/// The truth value that `v` is, if it is a JSON boolean.
pub uninterp spec fn json_bool(v: serde_json::Value) -> Option<bool>;

/// The integer that `v` is, if it is a JSON number that is an integer in the
/// range of `i64`.
pub uninterp spec fn json_i64(v: serde_json::Value) -> Option<i64>;

/// Whether `v` is JSON `null`.
pub uninterp spec fn json_is_null(v: serde_json::Value) -> bool;

/// `v` written as compact JSON text.
pub uninterp spec fn json_text(v: serde_json::Value) -> Text;

/// `serde_json::Value::get` with a string key: the member of the object `v`
/// under `key`, or nothing if `v` is not an object or has no such member.
#[verifier::external_body]
pub(crate) fn value_get<'a>(v: &'a serde_json::Value, key: &str) -> (r: Option<
    &'a serde_json::Value,
>)
    ensures
        match r {
            Some(m) => json_member(*v, key@) == Some(*m),
            None => json_member(*v, key@) is None,
        },
{
    v.get(key)
}

/// `serde_json::Value::as_bool`: the boolean that `v` is, or nothing if it is
/// of another kind.
#[verifier::external_body]
pub(crate) fn value_as_bool(v: &serde_json::Value) -> (r: Option<bool>)
    ensures
        r == json_bool(*v),
{
    v.as_bool()
}

/// `serde_json::Value::as_i64`: the integer that `v` is, or nothing if it is
/// no number or not an integer that fits.
#[verifier::external_body]
pub(crate) fn value_as_i64(v: &serde_json::Value) -> (r: Option<i64>)
    ensures
        r == json_i64(*v),
{
    v.as_i64()
}

/// `serde_json::Value::is_null`.
#[verifier::external_body]
pub(crate) fn value_is_null(v: &serde_json::Value) -> (r: bool)
    ensures
        r == json_is_null(*v),
{
    v.is_null()
}

/// The `Display` form of a `serde_json::Value`: its compact JSON text.
#[verifier::external_body]
pub(crate) fn value_to_text(v: &serde_json::Value) -> (r: String)
    ensures
        r@ == json_text(*v),
{
    v.to_string()
}

/// `Clone` of `serde_json::Value`: the copy is the same JSON value.
#[verifier::external_body]
pub(crate) fn value_clone(v: &serde_json::Value) -> (r: serde_json::Value)
    ensures
        r == *v,
{
    v.clone()
}

/// A copy of an optional JSON value.
pub(crate) fn clone_opt_value(v: &Option<serde_json::Value>) -> (r: Option<serde_json::Value>)
    ensures
        r == *v,
{
    match v {
        Some(x) => Some(value_clone(x)),
        None => None,
    }
}

/// What a log line says of its context: nothing for no context or `null`,
/// else ` | context=` and the JSON text.
pub open spec fn context_suffix(context: Option<serde_json::Value>) -> Text {
    match context {
        Some(v) => if json_is_null(v) {
            Seq::empty()
        } else {
            " | context="@ + json_text(v)
        },
        None => Seq::empty(),
    }
}

/// The context of a log line as text to put after the message.
pub fn format_context(context: Option<serde_json::Value>) -> (r: String)
    ensures
        r@ == context_suffix(context),
{
    match context {
        Some(v) => {
            if value_is_null(&v) {
                String::new()
            } else {
                let text = value_to_text(&v);
                join2(" | context=", text.as_str())
            }
        },
        None => String::new(),
    }
}

/// A line of the log that the user interface writes: `[React] `, the
/// message, and the context if there is one.
pub open spec fn react_line(message: Text, context: Option<serde_json::Value>) -> Text {
    "[React] "@ + message + context_suffix(context)
}

/// A line of the log that the user interface writes.
pub fn react_log_line(message: &str, context: Option<serde_json::Value>) -> (r: String)
    ensures
        r@ == react_line(message@, context),
{
    let suffix = format_context(context);
    join3("[React] ", message, suffix.as_str())
}

} // verus!
