//! JSON documents, as `serde_json` builds, encodes and decodes them.
//!
//! Verified code never looks inside a `serde_json::Value`. It reasons through
//! [`json_model`], the tree a value stands for, and through two further names
//! for what `serde_json` computes: the encoding of a tree and the tree that a
//! text decodes to, each with the case that there is none. Every function in this module that touches a
//! `serde_json` item is trusted: its contract is believed, not proved.

use vstd::prelude::*;

verus! {

/// A JSON number, in the three forms that `serde_json` tells apart.
pub enum JsonNumber {
    /// A non-negative integer.
    PosInt(u64),
    /// A negative integer.
    NegInt(i64),
    /// Any other finite number, by the bits of its double-precision form.
    Float(u64),
}

/// The tree that a JSON value stands for.
pub enum Json {
    Null,
    Bool(bool),
    Number(JsonNumber),
    Text(Seq<char>),
    /// The items, in order.
    Array(Seq<Json>),
    /// The members, by key. Their order is no part of the tree.
    Object(Map<Seq<char>, Json>),
}

/// `serde_json::Value`, carried through verified code as an opaque value.
#[verifier::external_type_specification]
#[verifier::external_body]
pub struct ExValue(serde_json::Value);

/// The tree that a `serde_json::Value` stands for: variant for variant,
/// with an object as the map from its keys to its members. Nothing is
/// claimed about it but what the contracts below say.
pub uninterp spec fn json_model(value: serde_json::Value) -> Json;

/// What `serde_json::to_vec` returns for a tree: the compact text it
/// writes, or nothing where it reports an error.
pub uninterp spec fn json_encoding(document: Json) -> Option<Seq<u8>>;

/// The tree that `serde_json::from_slice` reads from a text, where it reads one.
pub uninterp spec fn json_decoding(text: Seq<u8>) -> Option<Json>;

/// The members that a list of key and value pairs with distinct keys spells out.
pub open spec fn members_model(pairs: Seq<(String, serde_json::Value)>) -> Map<Seq<char>, Json>
    decreases pairs.len(),
{
    if pairs.len() == 0 {
        Map::empty()
    } else {
        members_model(pairs.drop_last()).insert(pairs.last().0@, json_model(pairs.last().1))
    }
}

/// Whether no key occurs twice in a list of key and value pairs.
pub open spec fn distinct_keys(pairs: Seq<(String, serde_json::Value)>) -> bool {
    forall|i: int, j: int| 0 <= i < j < pairs.len() ==> pairs[i].0@ != pairs[j].0@
}

/// `Value::from` on a `u32`: the value is that non-negative integer.
#[verifier::external_body]
pub(crate) fn number_value(n: u32) -> (value: serde_json::Value)
    ensures
        json_model(value) == Json::Number(JsonNumber::PosInt(n as u64)),
{
    serde_json::Value::from(n)
}

/// `Value::from` on a `bool`: the value is that boolean.
#[verifier::external_body]
pub(crate) fn bool_value(b: bool) -> (value: serde_json::Value)
    ensures
        json_model(value) == Json::Bool(b),
{
    serde_json::Value::from(b)
}

/// `Value::from` on a `&str`: the value is a JSON string with the same characters.
#[verifier::external_body]
pub(crate) fn text_value(s: &str) -> (value: serde_json::Value)
    ensures
        json_model(value) == Json::Text(s@),
{
    serde_json::Value::from(s)
}

/// `Value::from` on a `Vec<Value>`: the value is the array of the items, in order.
#[verifier::external_body]
pub(crate) fn array_value(items: Vec<serde_json::Value>) -> (value: serde_json::Value)
    ensures
        json_model(value) == Json::Array(items@.map_values(|item: serde_json::Value| json_model(item))),
{
    serde_json::Value::from(items)
}

/// `Value::from_iter` on key and value pairs: the value is the object with
/// those members. Claimed only for distinct keys.
#[verifier::external_body]
pub(crate) fn object_value(members: Vec<(String, serde_json::Value)>) -> (value: serde_json::Value)
    requires
        distinct_keys(members@),
    ensures
        json_model(value) == Json::Object(members_model(members@)),
{
    serde_json::Value::from_iter(members)
}

/// `serde_json::to_vec`: what comes back, bytes or nothing, is the encoding
/// of the value's tree. It depends on the value alone; nothing is claimed
/// about the trees for which there are bytes.
#[verifier::external_body]
pub(crate) fn encode_value(value: &serde_json::Value) -> (encoded: Option<Vec<u8>>)
    ensures
        match encoded {
            Some(bytes) => json_encoding(json_model(*value)) == Some(bytes@),
            None => json_encoding(json_model(*value)) is None,
        },
{
    serde_json::to_vec(value).ok()
}

/// `serde_json::from_slice` at type `Value`: it yields a value exactly when
/// the text decodes, and the value stands for the decoded tree.
#[verifier::external_body]
pub(crate) fn decode_value(text: &[u8]) -> (decoded: Option<serde_json::Value>)
    ensures
        match decoded {
            Some(value) => json_decoding(text@) == Some(json_model(value)),
            None => json_decoding(text@) is None,
        },
{
    serde_json::from_slice(text).ok()
}

/// `Value::get` with a string key: the member of that name, where the value
/// is an object that has one.
#[verifier::external_body]
pub(crate) fn member_value<'a>(value: &'a serde_json::Value, key: &str) -> (found: Option<&'a serde_json::Value>)
    ensures
        match found {
            Some(member) => json_member(json_model(*value), key@) == Some(json_model(*member)),
            None => json_member(json_model(*value), key@) is None,
        },
{
    value.get(key)
}

/// `Value::as_str`: the characters of a JSON string, and nothing for any other value.
#[verifier::external_body]
pub(crate) fn text_of(value: &serde_json::Value) -> (text: Option<String>)
    ensures
        match text {
            Some(s) => json_model(*value) == Json::Text(s@),
            None => !(json_model(*value) is Text),
        },
{
    value.as_str().map(String::from)
}

/// The member of an object under a key; nothing where the tree is no object
/// or has no such member.
pub open spec fn json_member(document: Json, key: Seq<char>) -> Option<Json> {
    match document {
        Json::Object(members) => if members.contains_key(key) {
            Some(members[key])
        } else {
            None
        },
        _ => None,
    }
}

} // verus!
