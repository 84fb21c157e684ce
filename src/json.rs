//! The calls into serde_json, each behind a small function, and names for
//! what they return.

use vstd::prelude::*;

verus! {

#[verifier::external_type_specification]
#[verifier::external_body]
pub struct ExValue(serde_json::Value);

#[verifier::external_type_specification]
#[verifier::external_body]
#[verifier::reject_recursive_types(K)]
#[verifier::reject_recursive_types(V)]
pub struct ExMap<K, V>(serde_json::Map<K, V>);

#[verifier::external_type_specification]
#[verifier::external_body]
pub struct ExError(serde_json::Error);

/// What serde_json::Value::get returns for a string key.
pub uninterp spec fn json_at(v: serde_json::Value, key: Seq<char>) -> Option<serde_json::Value>;

/// What serde_json::Value::as_str returns.
pub uninterp spec fn json_as_str(v: serde_json::Value) -> Option<Seq<char>>;

/// What serde_json::Value::as_u64 returns.
pub uninterp spec fn json_as_u64(v: serde_json::Value) -> Option<u64>;

/// What serde_json::Value::as_bool returns.
pub uninterp spec fn json_as_bool(v: serde_json::Value) -> Option<bool>;

/// What serde_json::Value::as_array returns.
pub uninterp spec fn json_items(v: serde_json::Value) -> Option<Seq<serde_json::Value>>;

/// What serde_json::Value::as_object returns.
pub uninterp spec fn json_fields(v: serde_json::Value) -> Option<serde_json::Map<String, serde_json::Value>>;

/// What serde_json::from_slice parses, when it succeeds.
pub uninterp spec fn json_parse(bytes: Seq<u8>) -> Option<serde_json::Value>;

/// What serde_json::to_vec writes.
pub uninterp spec fn json_text(v: serde_json::Value) -> Seq<u8>;

/// The `String` variant of serde_json::Value.
pub uninterp spec fn json_string(s: Seq<char>) -> serde_json::Value;

/// What `From<u64>` for serde_json::Value returns.
pub uninterp spec fn json_u64(n: u64) -> serde_json::Value;

/// The `Array` variant of serde_json::Value.
pub uninterp spec fn json_array(items: Seq<serde_json::Value>) -> serde_json::Value;

/// The `Object` variant of serde_json::Value holding these fields, inserted in order.
pub uninterp spec fn json_object(fields: Seq<(Seq<char>, serde_json::Value)>) -> serde_json::Value;

/// The string stored under `key`.
pub open spec fn str_at(v: serde_json::Value, key: Seq<char>) -> Option<Seq<char>> {
    match json_at(v, key) {
        Some(x) => json_as_str(x),
        None => None,
    }
}

/// The unsigned integer stored under `key`.
pub open spec fn u64_at(v: serde_json::Value, key: Seq<char>) -> Option<u64> {
    match json_at(v, key) {
        Some(x) => json_as_u64(x),
        None => None,
    }
}

/// The boolean stored under `key`.
pub open spec fn bool_at(v: serde_json::Value, key: Seq<char>) -> Option<bool> {
    match json_at(v, key) {
        Some(x) => json_as_bool(x),
        None => None,
    }
}

/// The items of the array stored under `key`.
pub open spec fn items_at(v: serde_json::Value, key: Seq<char>) -> Option<Seq<serde_json::Value>> {
    match json_at(v, key) {
        Some(x) => json_items(x),
        None => None,
    }
}

/// Relies on serde_json::Value::get and Value::as_str: the string stored under `key`.
#[verifier::external_body]
pub(crate) fn str_field(v: &serde_json::Value, key: &str) -> (r: Option<String>)
    ensures
        match json_at(*v, key@) {
            Some(x) => match r {
                Some(s) => json_as_str(x) == Some(s@),
                None => json_as_str(x) is None,
            },
            None => r is None,
        },
{
    v.get(key).and_then(serde_json::Value::as_str).map(|s| s.to_owned())
}

/// Relies on serde_json::Value::get and Value::as_u64: the unsigned integer stored under `key`.
#[verifier::external_body]
pub(crate) fn u64_field(v: &serde_json::Value, key: &str) -> (r: Option<u64>)
    ensures
        r == (match json_at(*v, key@) {
            Some(x) => json_as_u64(x),
            None => None,
        }),
{
    v.get(key).and_then(serde_json::Value::as_u64)
}

/// Relies on serde_json::Value::get and Value::as_bool: the boolean stored under `key`.
#[verifier::external_body]
pub(crate) fn bool_field(v: &serde_json::Value, key: &str) -> (r: Option<bool>)
    ensures
        r == (match json_at(*v, key@) {
            Some(x) => json_as_bool(x),
            None => None,
        }),
{
    v.get(key).and_then(serde_json::Value::as_bool)
}

/// Relies on serde_json::Value::get: the value stored under `key`, if `v` is an object.
#[verifier::external_body]
pub(crate) fn field<'a>(v: &'a serde_json::Value, key: &str) -> (r: Option<&'a serde_json::Value>)
    ensures
        match r {
            Some(x) => json_at(*v, key@) == Some(*x),
            None => json_at(*v, key@) is None,
        },
{
    v.get(key)
}

/// Relies on serde_json::Value::as_object: the fields of an object value.
#[verifier::external_body]
pub(crate) fn object_fields(v: &serde_json::Value) -> (r: Option<
    &serde_json::Map<String, serde_json::Value>,
>)
    ensures
        match r {
            Some(m) => json_fields(*v) == Some(*m),
            None => json_fields(*v) is None,
        },
{
    v.as_object()
}

/// Relies on serde_json::Value::as_array: the items of an array value.
#[verifier::external_body]
pub(crate) fn array_items(v: &serde_json::Value) -> (r: Option<Vec<serde_json::Value>>)
    ensures
        match r {
            Some(items) => json_items(*v) == Some(items@),
            None => json_items(*v) is None,
        },
{
    v.as_array().cloned()
}

/// Relies on `Clone` for serde_json::Value, which is derived: the copy is equal to the original.
pub assume_specification[ <serde_json::Value as Clone>::clone ](v: &serde_json::Value) -> (r: serde_json::Value)
    ensures
        r == *v,
;

/// Relies on the `String` variant of serde_json::Value.
#[verifier::external_body]
pub(crate) fn string_value(s: &str) -> (r: serde_json::Value)
    ensures
        r == json_string(s@),
        json_as_str(r) == Some(s@),
{
    serde_json::Value::String(s.to_owned())
}

/// Relies on `From<u64>` for serde_json::Value: a number value.
#[verifier::external_body]
pub(crate) fn u64_value(n: u64) -> (r: serde_json::Value)
    ensures
        r == json_u64(n),
        json_as_u64(r) == Some(n),
{
    serde_json::Value::from(n)
}

/// Relies on the `Array` variant of serde_json::Value.
#[verifier::external_body]
pub(crate) fn array_value(items: Vec<serde_json::Value>) -> (r: serde_json::Value)
    ensures
        r == json_array(items@),
        json_items(r) == Some(items@),
{
    serde_json::Value::Array(items)
}

/// Relies on `FromIterator` for serde_json::Map and the `Object` variant: an
/// object holding the fields, inserted in order.
#[verifier::external_body]
pub(crate) fn object_value(fields: Vec<(String, serde_json::Value)>) -> (r: serde_json::Value)
    ensures
        r == json_object(fields@.map_values(|f: (String, serde_json::Value)| (f.0@, f.1))),
        forall|i: int|
            0 <= i < fields.len() && (forall|j: int|
                i < j < fields.len() ==> fields@[j].0@ != fields@[i].0@) ==> json_at(
                r,
                #[trigger] fields@[i].0@,
            ) == Some(fields@[i].1),
{
    serde_json::Value::Object(fields.into_iter().collect())
}

/// Relies on serde_json::to_vec, which cannot fail on a value: its map keys
/// are strings and its numbers finite.
#[verifier::external_body]
pub(crate) fn to_bytes(v: &serde_json::Value) -> (r: Result<Vec<u8>, serde_json::Error>)
    ensures
        r is Ok,
        r matches Ok(b) ==> b@ == json_text(*v),
{
    serde_json::to_vec(v)
}

/// Relies on serde_json::from_slice: parses JSON text into a value.
#[verifier::external_body]
pub(crate) fn from_bytes(b: &[u8]) -> (r: Result<serde_json::Value, serde_json::Error>)
    ensures
        match r {
            Ok(v) => json_parse(b@) == Some(v),
            Err(_) => json_parse(b@) is None,
        },
{
    serde_json::from_slice(b)
}

/// Relies on `Display` for serde_json::Error: its description.
#[verifier::external_body]
pub(crate) fn error_text(e: &serde_json::Error) -> (r: String) {
    e.to_string()
}

} // verus!
