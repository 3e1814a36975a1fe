//! Trusted surface over `serde_json`, which parses the daemon's one-line
//! response. A parsed value is opaque here, so what each call yields is
//! given a name: an uninterpreted function of the call's arguments alone,
//! which the wrapper's contract applies. Everything decided about those
//! observations is verified code in the dispatcher.
use vstd::prelude::*;

verus! {

#[verifier::external_type_specification]
#[verifier::external_body]
pub struct ExValue(serde_json::Value);

/// What parsing a document yields: `serde_json::from_str` is a function of
/// the input text alone, parsing to a value or failing.
pub uninterp spec fn parsed_json(s: Seq<char>) -> Option<serde_json::Value>;

/// The string content of a value: what `Value::as_str` yields.
pub uninterp spec fn value_str(v: serde_json::Value) -> Option<Seq<char>>;

/// The unsigned integer content of a value: what `Value::as_u64` yields.
pub uninterp spec fn value_u64(v: serde_json::Value) -> Option<u64>;

/// The signed integer content of a value: what `Value::as_i64` yields.
pub uninterp spec fn value_i64(v: serde_json::Value) -> Option<i64>;

/// The boolean content of a value: what `Value::as_bool` yields.
pub uninterp spec fn value_bool(v: serde_json::Value) -> Option<bool>;

/// Whether a value is JSON null: what `Value::is_null` yields.
pub uninterp spec fn value_is_null(v: serde_json::Value) -> bool;

/// The member of an object under a key: what `Value::get` yields.
pub uninterp spec fn value_member(v: serde_json::Value, key: Seq<char>) -> Option<
    serde_json::Value,
>;

/// The elements of an array value: what `Value::as_array` yields.
pub uninterp spec fn value_items(v: serde_json::Value) -> Option<Seq<serde_json::Value>>;

/// A member read as a string: present and a string, or nothing.
pub open spec fn member_str(v: serde_json::Value, key: Seq<char>) -> Option<Seq<char>> {
    match value_member(v, key) {
        Some(f) => value_str(f),
        None => None,
    }
}

/// An optional string member: absent or null reads as nothing, a string as
/// itself, and a value of another type fails the read (outer `None`).
pub open spec fn opt_member_str(v: serde_json::Value, key: Seq<char>) -> Option<
    Option<Seq<char>>,
> {
    match value_member(v, key) {
        Some(f) => if value_is_null(f) {
            Some(None)
        } else {
            match value_str(f) {
                Some(s) => Some(Some(s)),
                None => None,
            }
        },
        None => Some(None),
    }
}

/// An optional unsigned member, read the same way.
pub open spec fn opt_member_u64(v: serde_json::Value, key: Seq<char>) -> Option<Option<u64>> {
    match value_member(v, key) {
        Some(f) => if value_is_null(f) {
            Some(None)
        } else {
            match value_u64(f) {
                Some(n) => Some(Some(n)),
                None => None,
            }
        },
        None => Some(None),
    }
}

/// Relies on serde_json::Value's derived Clone: the copy equals the
/// original, so every observation above agrees on both.
pub assume_specification[ <serde_json::Value as Clone>::clone ](v: &serde_json::Value) -> (r:
    serde_json::Value)
    ensures
        r == *v,
;

/// Relies on serde_json::from_str: parses a JSON document (a deterministic
/// function of the text; a recursion limit makes deep inputs fail rather
/// than overflow), or reports the parse error's text.
#[verifier::external_body]
pub(crate) fn json_parse(s: &str) -> (r: Result<serde_json::Value, String>)
    ensures
        match r {
            Ok(v) => parsed_json(s@) == Some(v),
            Err(_) => parsed_json(s@) is None,
        },
{
    match serde_json::from_str::<serde_json::Value>(s) {
        Ok(v) => Ok(v),
        Err(e) => Err(e.to_string()),
    }
}

/// Relies on serde_json::Value::get: the member of an object under a key,
/// if the value is an object having it.
#[verifier::external_body]
pub(crate) fn json_get<'a>(v: &'a serde_json::Value, key: &str) -> (r: Option<
    &'a serde_json::Value,
>)
    ensures
        match r {
            Some(m) => value_member(*v, key@) == Some(*m),
            None => value_member(*v, key@) is None,
        },
{
    v.get(key)
}

/// Relies on serde_json::Value::as_str: the content of a string value.
#[verifier::external_body]
pub(crate) fn json_as_str(v: &serde_json::Value) -> (r: Option<&str>)
    ensures
        match r {
            Some(s) => value_str(*v) == Some(s@),
            None => value_str(*v) is None,
        },
{
    v.as_str()
}

/// Relies on serde_json::Value::as_u64: the value of an unsigned integer
/// number.
#[verifier::external_body]
pub(crate) fn json_as_u64(v: &serde_json::Value) -> (r: Option<u64>)
    ensures
        r == value_u64(*v),
{
    v.as_u64()
}

/// Relies on serde_json::Value::as_i64: the value of a signed integer
/// number.
#[verifier::external_body]
pub(crate) fn json_as_i64(v: &serde_json::Value) -> (r: Option<i64>)
    ensures
        r == value_i64(*v),
{
    v.as_i64()
}

/// Relies on serde_json::Value::as_bool: the value of a boolean.
#[verifier::external_body]
pub(crate) fn json_as_bool(v: &serde_json::Value) -> (r: Option<bool>)
    ensures
        r == value_bool(*v),
{
    v.as_bool()
}

/// Relies on serde_json::Value::is_null: whether the value is JSON null.
#[verifier::external_body]
pub(crate) fn json_is_null(v: &serde_json::Value) -> (r: bool)
    ensures
        r == value_is_null(*v),
{
    v.is_null()
}

/// Relies on serde_json::Value::as_array: the elements of an array value.
#[verifier::external_body]
pub(crate) fn json_as_array<'a>(v: &'a serde_json::Value) -> (r: Option<
    &'a Vec<serde_json::Value>,
>)
    ensures
        match r {
            Some(items) => value_items(*v) == Some(items@),
            None => value_items(*v) is None,
        },
{
    v.as_array()
}

} // verus!
