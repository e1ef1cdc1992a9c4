//! JSON documents.
//!
//! A `serde_json::Value` is opaque here: [`json`] says what it holds, and the functions below
//! read it.

use serde_json::Value;
use vstd::prelude::*;

verus! {

/// A JSON document.
pub enum Json {
    Null,
    Bool(bool),
    /// A number, as `serde_json` writes it.
    Number(Seq<char>),
    Str(Seq<char>),
    Array(Seq<Json>),
    Object(Map<Seq<char>, Json>),
}

impl Json {
    /// The member `name` of an object; `None` for a member that is not there and for what is no
    /// object.
    pub open spec fn member(self, name: Seq<char>) -> Option<Json> {
        match self {
            Json::Object(members) => if members.dom().contains(name) {
                Some(members[name])
            } else {
                None
            },
            _ => None,
        }
    }

    /// The items of an array; `None` for what is no array.
    pub open spec fn items(self) -> Option<Seq<Json>> {
        match self {
            Json::Array(items) => Some(items),
            _ => None,
        }
    }

    /// The characters of a string; `None` for what is no string.
    pub open spec fn chars(self) -> Option<Seq<char>> {
        match self {
            Json::Str(chars) => Some(chars),
            _ => None,
        }
    }
}

/// A JSON document in memory.
#[verifier::external_type_specification]
#[verifier::external_body]
pub struct ExValue(Value);

/// What is wrong with a text that is no JSON document.
#[verifier::external_type_specification]
#[verifier::external_body]
pub struct ExJsonError(serde_json::Error);

/// What a document in memory holds.
pub uninterp spec fn json(v: Value) -> Json;

/// The document that `text` is, where it is one.
pub uninterp spec fn json_document(text: Seq<u8>) -> Option<Json>;

/// `serde_json::from_slice` into a `Value`: the document that `text` is, and an error exactly
/// when it is none.
#[verifier::external_body]
pub(crate) fn parse(text: &[u8]) -> (r: Result<Value, serde_json::Error>)
    ensures
        r is Ok <==> json_document(text@) is Some,
        r matches Ok(v) ==> json_document(text@) == Some(json(v)),
{
    serde_json::from_slice(text)
}

/// `Value::get` by a name: the member of that name, where `v` is an object that has one.
#[verifier::external_body]
pub(crate) fn get<'a>(v: &'a Value, name: &str) -> (r: Option<&'a Value>)
    ensures
        match r {
            Some(member) => json(*v).member(name@) == Some(json(*member)),
            None => json(*v).member(name@) is None,
        },
{
    v.get(name)
}

/// `Value::as_array`: the items of an array, in order, and nothing for what is no array.
#[verifier::external_body]
pub(crate) fn as_array(v: &Value) -> (r: Option<&Vec<Value>>)
    ensures
        match r {
            Some(items) => json(*v).items() == Some(items@.map_values(|item: Value| json(item))),
            None => json(*v).items() is None,
        },
{
    v.as_array()
}

/// `Value::as_str`: the characters of a string, and nothing for what is no string.
#[verifier::external_body]
pub(crate) fn as_str(v: &Value) -> (r: Option<&str>)
    ensures
        match r {
            Some(s) => json(*v).chars() == Some(s@),
            None => json(*v).chars() is None,
        },
{
    v.as_str()
}

/// `Value::Array`: the document that is an array with the one item `item`.
#[verifier::external_body]
pub(crate) fn array_of(item: Value) -> (r: Value)
    ensures
        json(r) == Json::Array(seq![json(item)]),
{
    Value::Array(vec![item])
}

/// `Value::Object` over `serde_json::Map::insert`: the document that is an object with the one
/// member `name`, which is `member`.
#[verifier::external_body]
pub(crate) fn object_of(name: &str, member: Value) -> (r: Value)
    ensures
        json(r) == Json::Object(map![name@ => json(member)]),
{
    let mut members = serde_json::Map::new();
    members.insert(name.to_owned(), member);
    Value::Object(members)
}

/// `Value::clone`: a document that holds the same.
#[verifier::external_body]
pub(crate) fn copy(v: &Value) -> (r: Value)
    ensures
        json(r) == json(*v),
{
    v.clone()
}

} // verus!
