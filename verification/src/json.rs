//! JSON objects as the payloads carry them.

use vstd::prelude::*;

verus! {

/// `serde_json::Map`: a JSON object, carried as it is; what it holds is
/// read through `json_strings` and `json_keys`.
#[verifier::external_type_specification]
#[verifier::external_body]
#[verifier::reject_recursive_types(K)]
#[verifier::reject_recursive_types(V)]
pub struct ExJsonMap<K, V>(serde_json::Map<K, V>);

/// `serde_json::Value`: any JSON value, carried as it is; what it holds
/// is read through `json_value_strings`.
#[verifier::external_type_specification]
#[verifier::external_body]
pub struct ExJsonValue(serde_json::Value);

/// The members of a JSON object that are strings, by key.
pub uninterp spec fn json_strings(m: serde_json::Map<String, serde_json::Value>) -> Map<
    Seq<char>,
    Seq<char>,
>;

/// The keys of a JSON object, in the order in which the object hands
/// them out.
pub uninterp spec fn json_keys(m: serde_json::Map<String, serde_json::Value>) -> Seq<Seq<char>>;

/// The string under `key` in the object, where it holds one.
pub open spec fn string_at(m: serde_json::Map<String, serde_json::Value>, key: Seq<char>) -> Option<
    Seq<char>,
> {
    if json_strings(m).dom().contains(key) {
        Some(json_strings(m)[key])
    } else {
        None
    }
}

/// `serde_json::Map::get`, then `serde_json::Value::as_str` on what it
/// found: the member under `key`, where the object has one and it is a
/// string.
#[verifier::external_body]
pub(crate) fn json_string(m: &serde_json::Map<String, serde_json::Value>, key: &str) -> (r: Option<
    String,
>)
    ensures
        r.deep_view() == if json_strings(*m).dom().contains(key@) {
            Some(json_strings(*m)[key@])
        } else {
            None
        },
{
    match m.get(key) {
        Some(value) => value.as_str().map(String::from),
        None => None,
    }
}

/// `serde_json::Map::keys`: the keys of the object, each once, in the
/// order of the map that the object keeps them in.
#[verifier::external_body]
pub(crate) fn json_key_list(m: &serde_json::Map<String, serde_json::Value>) -> (r: Vec<String>)
    ensures
        r.deep_view() == json_keys(*m),
{
    m.keys().map(|k| k.clone()).collect()
}

/// The members of a JSON value that are strings, by key; a value that
/// is no object has none.
pub uninterp spec fn json_value_strings(v: serde_json::Value) -> Map<Seq<char>, Seq<char>>;

/// `serde_json::Value::get` with a string for the index, then
/// `serde_json::Value::as_str` on what it found: the member under `key`,
/// where the value is an object that has one and it is a string.
#[verifier::external_body]
pub(crate) fn json_value_string(v: &serde_json::Value, key: &str) -> (r: Option<String>)
    ensures
        r.deep_view() == if json_value_strings(*v).dom().contains(key@) {
            Some(json_value_strings(*v)[key@])
        } else {
            None
        },
{
    match v.get(key) {
        Some(value) => value.as_str().map(String::from),
        None => None,
    }
}

} // verus!
