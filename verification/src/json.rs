//! The JSON objects the library reads (a reference's settings, a KV v2
//! response), modelled over plain values.

use vstd::prelude::*;

verus! {

#[verifier::external_type_specification]
#[verifier::external_body]
#[verifier::reject_recursive_types(K)]
#[verifier::reject_recursive_types(V)]
pub struct ExJsonMap<K, V>(serde_json::Map<K, V>);

#[verifier::external_type_specification]
#[verifier::external_body]
pub struct ExJsonValue(serde_json::Value);

#[verifier::external_type_specification]
#[verifier::external_body]
pub struct ExJsonError(serde_json::Error);

/// What a member of a JSON object holds, as far as this library tells
/// values apart: a string, a nested object, or anything else.
pub enum JsonSlot {
    Text(Seq<char>),
    Object(Map<Seq<char>, JsonSlot>),
    Other,
}

/// The members of a JSON object, keyed by name.
pub uninterp spec fn json_object(m: serde_json::Map<String, serde_json::Value>) -> Map<Seq<char>, JsonSlot>;

/// The members of the JSON object that `bytes` hold, or `None` where
/// `serde_json::from_slice` refuses them as a JSON object.
pub uninterp spec fn json_object_text(bytes: Seq<u8>) -> Option<Map<Seq<char>, JsonSlot>>;

/// One member of a JSON object, as a lookup of its name hands it out.
pub enum Member<'a> {
    Absent,
    Text(&'a String),
    Object(&'a serde_json::Map<String, serde_json::Value>),
    Other,
}

/// `member` tells what `lookup` of `key` in an object with members `members`
/// hands out.
pub open spec fn member_matches(members: Map<Seq<char>, JsonSlot>, key: Seq<char>, member: Member) -> bool {
    match member {
        Member::Absent => !members.contains_key(key),
        Member::Text(s) => members.contains_key(key) && members[key] == JsonSlot::Text(s@),
        Member::Object(m) => members.contains_key(key) && members[key] == JsonSlot::Object(json_object(*m)),
        Member::Other => members.contains_key(key) && members[key] is Other,
    }
}

/// The string a member holds, if it holds one.
pub open spec fn text_member(members: Map<Seq<char>, JsonSlot>, key: Seq<char>) -> Option<Seq<char>> {
    if members.contains_key(key) {
        match members[key] {
            JsonSlot::Text(s) => Some(s),
            _ => None,
        }
    } else {
        None
    }
}

/// Looks `key` up with `serde_json::Map::get` and tells a string, an object
/// and any other JSON value apart.
#[verifier::external_body]
pub(crate) fn lookup<'a>(object: &'a serde_json::Map<String, serde_json::Value>, key: &str) -> (r: Member<'a>)
    ensures
        member_matches(json_object(*object), key@, r),
{
    match object.get(key) {
        None => Member::Absent,
        Some(serde_json::Value::String(s)) => Member::Text(s),
        Some(serde_json::Value::Object(m)) => Member::Object(m),
        Some(serde_json::Value::Null) => Member::Other,
        Some(serde_json::Value::Bool(_)) => Member::Other,
        Some(serde_json::Value::Number(_)) => Member::Other,
        Some(serde_json::Value::Array(_)) => Member::Other,
    }
}

/// Parses `bytes` as one JSON object with `serde_json::from_slice`.
#[verifier::external_body]
pub(crate) fn parse_object(bytes: &[u8]) -> (r: Result<serde_json::Map<String, serde_json::Value>, serde_json::Error>)
    ensures
        r is Ok <==> json_object_text(bytes@) is Some,
        r matches Ok(m) ==> json_object(m) == json_object_text(bytes@)->0,
{
    serde_json::from_slice(bytes)
}

} // verus!
