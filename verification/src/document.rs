//! Reading JSON and YAML documents with `serde_json` and `serde_yaml`.
//!
//! Verus sees nothing inside a value of either crate. Each reader below makes
//! one call into a crate, and its contract gives what the call returns a
//! name; no contract says what a name is on a given text.

use vstd::prelude::*;

verus! {

/// A JSON value of `serde_json`, as something that is handed on and asked,
/// never looked into.
#[verifier::external_type_specification]
#[verifier::external_body]
pub struct ExJsonValue(serde_json::Value);

/// A YAML value of `serde_yaml`, as something that is handed on and asked,
/// never looked into.
#[verifier::external_type_specification]
#[verifier::external_body]
pub struct ExYamlValue(serde_yaml::Value);

/// The value that `serde_json::from_slice` reads from a text; `None` where it
/// reports an error.
pub uninterp spec fn json_document(text: Seq<u8>) -> Option<serde_json::Value>;

/// The members that a JSON value holds, by their keys: those that
/// `serde_json::Value::get` finds. A value that is no object holds none.
pub uninterp spec fn json_object(value: serde_json::Value) -> Map<Seq<char>, serde_json::Value>;

/// The number that `serde_utils::quoted_u64::deserialize`, of the crate
/// `ethereum_serde_utils`, reads from a value; `None` where it reports an
/// error.
pub uninterp spec fn json_quoted_u64(value: serde_json::Value) -> Option<u64>;

/// The bytes that `alloy::primitives::Bytes` reads from a value when it is
/// deserialized; `None` where that reports an error.
pub uninterp spec fn json_bytes(value: serde_json::Value) -> Option<Seq<u8>>;

/// The value that `serde_yaml::from_slice` reads from a text; `None` where it
/// reports an error.
pub uninterp spec fn yaml_document(text: Seq<u8>) -> Option<serde_yaml::Value>;

/// The entries that a YAML value holds under keys that are texts: those
/// that `serde_yaml::Value::get` finds. A value that is no mapping, with its
/// tags taken off, holds none.
pub uninterp spec fn yaml_mapping(value: serde_yaml::Value) -> Map<Seq<char>, serde_yaml::Value>;

/// The number that `u64` reads from a value when it is deserialized; `None`
/// where that reports an error.
pub uninterp spec fn yaml_u64(value: serde_yaml::Value) -> Option<u64>;

/// The number that `u32` reads from a value when it is deserialized; `None`
/// where that reports an error.
pub uninterp spec fn yaml_u32(value: serde_yaml::Value) -> Option<u32>;

/// The member of a JSON value under a key, if it has one.
pub open spec fn json_member(value: serde_json::Value, key: Seq<char>) -> Option<
    serde_json::Value,
> {
    if json_object(value).contains_key(key) {
        Some(json_object(value)[key])
    } else {
        None
    }
}

/// The entry of a YAML value under a key, if it has one.
pub open spec fn yaml_member(value: serde_yaml::Value, key: Seq<char>) -> Option<
    serde_yaml::Value,
> {
    if yaml_mapping(value).contains_key(key) {
        Some(yaml_mapping(value)[key])
    } else {
        None
    }
}

/// Calls `serde_json::from_slice` for a `serde_json::Value`. The result is
/// what `json_document` names; an error of the parser becomes `None`.
#[verifier::external_body]
pub(crate) fn read_json(text: &[u8]) -> (document: Option<serde_json::Value>)
    ensures
        document == json_document(text@),
{
    serde_json::from_slice::<serde_json::Value>(text).ok()
}

/// Calls `serde_json::Value::get` with a key: the member under the key where
/// the value is an object that has the key, and `None` otherwise.
#[verifier::external_body]
pub(crate) fn json_get<'a>(value: &'a serde_json::Value, key: &str) -> (member: Option<
    &'a serde_json::Value,
>)
    ensures
        match member {
            Some(found) => json_object(*value).contains_key(key@) && json_object(*value)[key@]
                == *found,
            None => !json_object(*value).contains_key(key@),
        },
{
    value.get(key)
}

/// Calls `serde_utils::quoted_u64::deserialize` on a value. The result is
/// what `json_quoted_u64` names; an error becomes `None`.
#[verifier::external_body]
pub(crate) fn json_read_quoted_u64(value: &serde_json::Value) -> (number: Option<u64>)
    ensures
        number == json_quoted_u64(*value),
{
    serde_utils::quoted_u64::deserialize(value).ok()
}

/// Deserializes `alloy::primitives::Bytes` from a value and hands the bytes
/// out as a vector. The result is what `json_bytes` names; an error becomes
/// `None`.
#[verifier::external_body]
pub(crate) fn json_read_bytes(value: &serde_json::Value) -> (bytes: Option<Vec<u8>>)
    ensures
        match bytes {
            Some(found) => json_bytes(*value) == Some(found@),
            None => json_bytes(*value) is None,
        },
{
    match <alloy::primitives::Bytes as serde::Deserialize>::deserialize(value) {
        Ok(found) => Some(found.to_vec()),
        Err(_) => None,
    }
}

/// Calls `serde_yaml::from_slice` for a `serde_yaml::Value`. The result is
/// what `yaml_document` names; an error of the parser becomes `None`.
#[verifier::external_body]
pub(crate) fn read_yaml(text: &[u8]) -> (document: Option<serde_yaml::Value>)
    ensures
        document == yaml_document(text@),
{
    serde_yaml::from_slice::<serde_yaml::Value>(text).ok()
}

/// Calls `serde_yaml::Value::get` with a key: the entry under the key where
/// the value, with its tags taken off, is a mapping that has the key, and
/// `None` otherwise.
#[verifier::external_body]
pub(crate) fn yaml_get<'a>(value: &'a serde_yaml::Value, key: &str) -> (member: Option<
    &'a serde_yaml::Value,
>)
    ensures
        match member {
            Some(found) => yaml_mapping(*value).contains_key(key@) && yaml_mapping(*value)[key@]
                == *found,
            None => !yaml_mapping(*value).contains_key(key@),
        },
{
    value.get(key)
}

/// Deserializes a `u64` from a value. The result is what `yaml_u64` names; an
/// error becomes `None`.
#[verifier::external_body]
pub(crate) fn yaml_read_u64(value: &serde_yaml::Value) -> (number: Option<u64>)
    ensures
        number == yaml_u64(*value),
{
    <u64 as serde::Deserialize>::deserialize(value).ok()
}

/// Deserializes a `u32` from a value. The result is what `yaml_u32` names; an
/// error becomes `None`.
#[verifier::external_body]
pub(crate) fn yaml_read_u32(value: &serde_yaml::Value) -> (number: Option<u32>)
    ensures
        number == yaml_u32(*value),
{
    <u32 as serde::Deserialize>::deserialize(value).ok()
}

} // verus!
