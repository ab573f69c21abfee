//! JSON values. The values themselves are `serde_json`'s; this module says
//! what the verified code may take for granted of them.
//!
//! Every function in this file that is marked `external_body` is believed, not
//! proved: its contract restates what `serde_json` documents.

use vstd::prelude::*;

verus! {

#[verifier::external_type_specification]
#[verifier::external_body]
pub struct ExValue(serde_json::Value);

#[verifier::external_type_specification]
#[verifier::external_body]
#[verifier::reject_recursive_types(K)]
#[verifier::reject_recursive_types(V)]
pub struct ExMembers<K, V>(serde_json::Map<K, V>);

#[verifier::external_type_specification]
#[verifier::external_body]
pub struct ExJsonError(serde_json::Error);

/// A JSON number: a non-negative integer, a negative integer, or any other
/// number, told apart by the bits of its binary form.
pub enum JsonNumber {
    PosInt(u64),
    NegInt(i64),
    Other(u64),
}

/// What a JSON value holds.
pub enum Json {
    Null,
    Bool(bool),
    Number(JsonNumber),
    Text(Seq<char>),
    Array(Seq<Json>),
    Object(Map<Seq<char>, Json>),
}

/// What a value holds.
pub uninterp spec fn json_of(value: serde_json::Value) -> Json;

/// The members that a map of values holds, by their keys.
pub uninterp spec fn members_of(members: serde_json::Map<String, serde_json::Value>) -> Map<
    Seq<char>,
    Json,
>;

/// The member that `Value::get` finds in a value under a key, where it finds
/// one.
pub uninterp spec fn member_value(value: serde_json::Value, key: Seq<char>) -> Option<
    serde_json::Value,
>;

/// The value that `serde_json::from_str` reads from a text, where it reads
/// one.
pub uninterp spec fn json_parsed(text: Seq<char>) -> Option<serde_json::Value>;

/// The text that `serde_json::to_string` writes for a value.
pub uninterp spec fn json_text(value: serde_json::Value) -> Seq<char>;

/// The text that a value is displayed as.
pub uninterp spec fn json_shown(value: serde_json::Value) -> Seq<char>;

/// The members of an empty object.
pub open spec fn no_members() -> Map<Seq<char>, Json> {
    Map::empty()
}

/// The member of an object under `key`. Anything but an object has no
/// members.
pub open spec fn member(json: Json, key: Seq<char>) -> Option<Json> {
    match json {
        Json::Object(members) => if members.contains_key(key) {
            Some(members[key])
        } else {
            None
        },
        _ => None,
    }
}

/// The number that a value stands for, where it is an integer from 0 to
/// 2^64 - 1.
pub open spec fn as_u64(json: Json) -> Option<u64> {
    match json {
        Json::Number(JsonNumber::PosInt(n)) => Some(n),
        _ => None,
    }
}

/// `serde_json::from_str::<Value>`: reads `text` as one JSON value. What it
/// returns depends on `text` alone; the contract gives it a name. A text that
/// is no JSON value gives `None`: the reason is dropped.
#[verifier::external_body]
pub(crate) fn parse_value(text: &str) -> (r: Option<serde_json::Value>)
    ensures
        r == json_parsed(text@),
{
    serde_json::from_str::<serde_json::Value>(text).ok()
}

/// `serde_json::to_string`: writes `value` as compact JSON. For a `Value`
/// the call succeeds: the keys of its objects are strings, its numbers are
/// finite, and the text is written into memory, so that none of the ways in
/// which the call can fail is open. The text depends on `value` alone; the
/// contract gives it a name. It also says that the text holds no line feed:
/// the compact form puts none between the parts of a value, and inside a
/// string a line feed is written as an escape.
#[verifier::external_body]
pub(crate) fn serialize_value(value: &serde_json::Value) -> (r: Result<
    String,
    serde_json::Error,
>)
    ensures
        r is Ok,
        r matches Ok(text) ==> text@ == json_text(*value) && !json_text(*value).contains('\n'),
{
    serde_json::to_string(value)
}

/// `Display` of `serde_json::Error`: the reason a call failed, as text.
/// Nothing is claimed of it.
#[verifier::external_body]
pub(crate) fn describe_json_error(error: &serde_json::Error) -> (r: String) {
    error.to_string()
}

/// `Display` of `serde_json::Value`: the value as compact JSON. The text
/// depends on `value` alone; the contract gives it a name.
#[verifier::external_body]
pub(crate) fn show_value(value: &serde_json::Value) -> (r: String)
    ensures
        r@ == json_shown(*value),
{
    value.to_string()
}

/// `Value::get` with a string: the member of an object under `key`; `None`
/// where `value` is no object or has no such member. The contract names the
/// member found and says that it is what the object holds under `key`.
#[verifier::external_body]
pub(crate) fn value_get<'a>(value: &'a serde_json::Value, key: &str) -> (r: Option<
    &'a serde_json::Value,
>)
    ensures
        match r {
            Some(found) => member_value(*value, key@) == Some(*found) && member(
                json_of(*value),
                key@,
            ) == Some(json_of(*found)),
            None => member_value(*value, key@) is None && member(json_of(*value), key@) is None,
        },
{
    value.get(key)
}

/// `Value::as_u64`: the number where `value` is an integer that fits `u64`,
/// else `None`.
#[verifier::external_body]
pub(crate) fn value_as_u64(value: &serde_json::Value) -> (r: Option<u64>)
    ensures
        r == as_u64(json_of(*value)),
{
    value.as_u64()
}

/// `Clone` of `serde_json::Value`: an equal value.
#[verifier::external_body]
pub(crate) fn clone_value(value: &serde_json::Value) -> (r: serde_json::Value)
    ensures
        r == *value,
{
    value.clone()
}

/// `Map::new`: a map without members.
#[verifier::external_body]
pub(crate) fn new_members() -> (r: serde_json::Map<String, serde_json::Value>)
    ensures
        members_of(r) == no_members(),
{
    serde_json::Map::new()
}

/// `Map::insert`: afterwards `key` leads to `value`, and every other key to
/// what it led to before.
#[verifier::external_body]
pub(crate) fn insert_member(
    members: &mut serde_json::Map<String, serde_json::Value>,
    key: &str,
    value: serde_json::Value,
)
    ensures
        members_of(*final(members)) == members_of(*old(members)).insert(key@, json_of(value)),
{
    members.insert(key.to_string(), value);
}

/// `Value::Object`: the object with the given members.
#[verifier::external_body]
pub(crate) fn object_value(members: serde_json::Map<String, serde_json::Value>) -> (r:
    serde_json::Value)
    ensures
        json_of(r) == Json::Object(members_of(members)),
{
    serde_json::Value::Object(members)
}

/// `Value::String`: the JSON string with the given text.
#[verifier::external_body]
pub(crate) fn text_value(text: &str) -> (r: serde_json::Value)
    ensures
        json_of(r) == Json::Text(text@),
{
    serde_json::Value::String(text.to_string())
}

/// `Value::from` a `u64`: the JSON number for a non-negative integer.
#[verifier::external_body]
pub(crate) fn number_value(n: u64) -> (r: serde_json::Value)
    ensures
        json_of(r) == Json::Number(JsonNumber::PosInt(n)),
{
    serde_json::Value::from(n)
}

/// `Value::Bool`: the JSON value `true` or `false`.
#[verifier::external_body]
pub(crate) fn bool_value(b: bool) -> (r: serde_json::Value)
    ensures
        json_of(r) == Json::Bool(b),
{
    serde_json::Value::Bool(b)
}

} // verus!
