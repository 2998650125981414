//! JSON values of `serde_json`, as far as the adapter reads and writes
//! them.
//!
//! A value is opaque here; what it holds is its model, a value of
//! `JsonModel`. Reading a value asks its model a question; building a value
//! says which model the result has.

use vstd::prelude::*;

verus! {

/// `serde_json::Value`: a JSON value. Nothing is seen of a value but its
/// model.
#[verifier::external_type_specification]
#[verifier::external_body]
pub struct ExJsonValue(serde_json::Value);

/// `serde_json::Map`: the members of a JSON object while it is built.
#[verifier::external_type_specification]
#[verifier::external_body]
#[verifier::reject_recursive_types(K)]
#[verifier::reject_recursive_types(V)]
pub struct ExJsonMap<K, V>(serde_json::Map<K, V>);

/// The members of a JSON object, as `serde_json` holds them.
pub type JsonMembers = serde_json::Map<String, serde_json::Value>;

/// What a JSON value holds.
pub enum JsonModel {
    Null,
    Flag(bool),
    /// A number that is an integer within the range of `i64`.
    Integer(i64),
    /// Any other number.
    Number,
    Text(Seq<char>),
    Array(Seq<JsonModel>),
    Object(Map<Seq<char>, JsonModel>),
}

impl JsonModel {
    /// The member of an object under `key`; none where this is no object
    /// or has no such member.
    pub open spec fn member(self, key: Seq<char>) -> Option<JsonModel> {
        match self {
            JsonModel::Object(members) => if members.contains_key(key) {
                Some(members[key])
            } else {
                None
            },
            _ => None,
        }
    }

    /// The text of a string; none where this is no string.
    pub open spec fn text(self) -> Option<Seq<char>> {
        match self {
            JsonModel::Text(t) => Some(t),
            _ => None,
        }
    }

    /// The integer of a number; none where this is no number, or a number
    /// that is no integer within the range of `i64`.
    pub open spec fn integer(self) -> Option<i64> {
        match self {
            JsonModel::Integer(n) => Some(n),
            _ => None,
        }
    }

    /// The truth value of a boolean; none where this is none.
    pub open spec fn flag(self) -> Option<bool> {
        match self {
            JsonModel::Flag(b) => Some(b),
            _ => None,
        }
    }

    /// The elements of an array; none where this is no array.
    pub open spec fn elements(self) -> Option<Seq<JsonModel>> {
        match self {
            JsonModel::Array(elements) => Some(elements),
            _ => None,
        }
    }
}

/// What the value `v` holds.
pub uninterp spec fn json_model(v: serde_json::Value) -> JsonModel;

/// What the values `values` hold, one by one.
pub open spec fn json_models(values: Seq<serde_json::Value>) -> Seq<JsonModel> {
    Seq::new(values.len(), |i: int| json_model(values[i]))
}

/// The keys of a list of members, in order.
pub open spec fn member_keys(members: Seq<(String, serde_json::Value)>) -> Seq<Seq<char>> {
    Seq::new(members.len(), |i: int| members[i].0@)
}

/// The members that the map `m` holds, by key.
pub uninterp spec fn json_fields(m: JsonMembers) -> Map<Seq<char>, JsonModel>;

/// What the JSON text `text` stands for; none where `text` is no JSON.
pub uninterp spec fn json_parsed(text: Seq<char>) -> Option<JsonModel>;

/// An object without members.
pub open spec fn no_members() -> Map<Seq<char>, JsonModel> {
    Map::empty()
}

/// `serde_json::from_str` for a `Value`: the value that the text stands
/// for, or the parser's complaint where the text is no JSON. The grammar of
/// JSON stands behind the name `json_parsed`.
#[verifier::external_body]
pub(crate) fn parse_json(text: &str) -> (r: Result<serde_json::Value, String>)
    ensures
        match r {
            Ok(v) => json_parsed(text@) == Some(json_model(v)),
            Err(_) => json_parsed(text@) is None,
        },
{
    match serde_json::from_str::<serde_json::Value>(text) {
        Ok(v) => Ok(v),
        Err(e) => Err(e.to_string()),
    }
}

/// `Value::get` with a string index: the member under `key` where the value
/// is an object that has one.
#[verifier::external_body]
pub(crate) fn json_get<'a>(v: &'a serde_json::Value, key: &str) -> (r: Option<&'a serde_json::Value>)
    ensures
        match r {
            Some(member) => json_model(*v).member(key@) == Some(json_model(*member)),
            None => json_model(*v).member(key@) is None,
        },
{
    v.get(key)
}

/// `Value::as_str`: the text where the value is a string.
#[verifier::external_body]
pub(crate) fn json_as_str<'a>(v: &'a serde_json::Value) -> (r: Option<&'a str>)
    ensures
        match r {
            Some(text) => json_model(*v).text() == Some(text@),
            None => json_model(*v).text() is None,
        },
{
    v.as_str()
}

/// `Value::as_i64`: the number where the value is an integer that an `i64`
/// can hold.
#[verifier::external_body]
pub(crate) fn json_as_i64(v: &serde_json::Value) -> (r: Option<i64>)
    ensures
        r == json_model(*v).integer(),
{
    v.as_i64()
}

/// `Value::as_array`: the elements where the value is an array.
#[verifier::external_body]
pub(crate) fn json_as_array<'a>(v: &'a serde_json::Value) -> (r: Option<&'a Vec<serde_json::Value>>)
    ensures
        match r {
            Some(elements) => json_model(*v).elements() == Some(json_models(elements@)),
            None => json_model(*v).elements() is None,
        },
{
    v.as_array()
}

/// `Value::as_bool`: the truth value where the value is a boolean.
#[verifier::external_body]
pub(crate) fn json_as_bool(v: &serde_json::Value) -> (r: Option<bool>)
    ensures
        r == json_model(*v).flag(),
{
    v.as_bool()
}

/// `Value::as_object`: the members where the value is an object.
#[verifier::external_body]
pub(crate) fn json_as_object<'a>(v: &'a serde_json::Value) -> (r: Option<&'a JsonMembers>)
    ensures
        match r {
            Some(members) => json_model(*v) == JsonModel::Object(json_fields(*members)),
            None => !(json_model(*v) is Object),
        },
{
    v.as_object()
}

/// `Map::iter`, with each key and value copied out: the members of the map,
/// each key once, in the order in which the map yields them.
#[verifier::external_body]
pub(crate) fn json_members(m: &JsonMembers) -> (r: Vec<(String, serde_json::Value)>)
    ensures
        member_keys(r@).no_duplicates(),
        forall|key: Seq<char>| json_fields(*m).contains_key(key) <==> member_keys(r@).contains(key),
        forall|i: int| 0 <= i < r@.len() ==> json_fields(*m)[(#[trigger] r@[i]).0@] == json_model(r@[i].1),
{
    m.iter().map(|(key, value)| (key.clone(), value.clone())).collect()
}

/// `Clone::clone` of a value: a value that is the same in every respect.
#[verifier::external_body]
pub(crate) fn json_clone(v: &serde_json::Value) -> (r: serde_json::Value)
    ensures
        r == *v,
{
    v.clone()
}

/// `Value::Null`.
#[verifier::external_body]
pub(crate) fn json_null() -> (r: serde_json::Value)
    ensures
        json_model(r) == JsonModel::Null,
{
    serde_json::Value::Null
}

/// `Value::Bool`: the truth value `b`.
#[verifier::external_body]
pub(crate) fn json_bool(b: bool) -> (r: serde_json::Value)
    ensures
        json_model(r) == JsonModel::Flag(b),
{
    serde_json::Value::Bool(b)
}

/// `Value::String`: the string that holds `text`.
#[verifier::external_body]
pub(crate) fn json_string(text: String) -> (r: serde_json::Value)
    ensures
        json_model(r) == JsonModel::Text(text@),
{
    serde_json::Value::String(text)
}

/// `Value::from` for an `i64`: the number `n`.
#[verifier::external_body]
pub(crate) fn json_number(n: i64) -> (r: serde_json::Value)
    ensures
        json_model(r) == JsonModel::Integer(n),
{
    serde_json::Value::from(n)
}

/// `Value::Array`: the array of `elements`.
#[verifier::external_body]
pub(crate) fn json_array(elements: Vec<serde_json::Value>) -> (r: serde_json::Value)
    ensures
        json_model(r) == JsonModel::Array(json_models(elements@)),
{
    serde_json::Value::Array(elements)
}

/// `Map::new`: a map without members.
#[verifier::external_body]
pub(crate) fn json_map_new() -> (m: JsonMembers)
    ensures
        json_fields(m) == no_members(),
{
    serde_json::Map::new()
}

/// `Map::insert`: binds `key` to `value`, in place of what was bound to it.
#[verifier::external_body]
pub(crate) fn json_map_insert(m: &mut JsonMembers, key: String, value: serde_json::Value)
    ensures
        json_fields(*final(m)) == json_fields(*old(m)).insert(key@, json_model(value)),
{
    m.insert(key, value);
}

/// `Value::Object`: the object with the members of `m`.
#[verifier::external_body]
pub(crate) fn json_object(m: JsonMembers) -> (r: serde_json::Value)
    ensures
        json_model(r) == JsonModel::Object(json_fields(m)),
{
    serde_json::Value::Object(m)
}

} // verus!
