//! JSON documents of `serde_json`, and what is taken on trust of reading
//! them.

use vstd::prelude::*;

verus! {

/// A JSON document as contracts see it. A number's value is left out:
/// nothing here reads one.
pub enum Json {
    Null,
    Boolean(bool),
    Number,
    Text(Seq<char>),
    List(Seq<Json>),
    Object(Map<Seq<char>, Json>),
}

impl Json {
    /// The member of an object under `key`; `Null` where the document is no
    /// object or has no such member.
    pub open spec fn member(self, key: Seq<char>) -> Json {
        match self {
            Json::Object(members) => if members.contains_key(key) {
                members[key]
            } else {
                Json::Null
            },
            _ => Json::Null,
        }
    }
}

/// `serde_json::Value`, a decoded JSON document. Nothing inside it is seen
/// here: it is read through the functions below.
#[verifier::external_type_specification]
#[verifier::external_body]
pub struct ExValue(serde_json::Value);

/// The document that a `serde_json::Value` holds.
pub uninterp spec fn json_of(value: serde_json::Value) -> Json;

/// `serde_json::Value`'s indexing by a string: the member of that name of an
/// object, and a reference to a `Null` value where the value is no object or
/// has no such member. It never panics.
#[verifier::external_body]
pub(crate) fn value_member<'a>(value: &'a serde_json::Value, key: &str) -> (member: &'a serde_json::Value)
    ensures
        json_of(*member) == json_of(*value).member(key@),
{
    &value[key]
}

/// `serde_json::Value::as_bool`: the boolean of a `Bool` value, nothing for
/// any other.
#[verifier::external_body]
pub(crate) fn value_as_bool(value: &serde_json::Value) -> (flag: Option<bool>)
    ensures
        flag == (match json_of(*value) {
            Json::Boolean(b) => Some(b),
            _ => None,
        }),
{
    value.as_bool()
}

/// `serde_json::Value::as_str`: the text of a `String` value, nothing for any
/// other.
#[verifier::external_body]
pub(crate) fn value_as_str<'a>(value: &'a serde_json::Value) -> (text: Option<&'a str>)
    ensures
        match json_of(*value) {
            Json::Text(t) => text matches Some(s) && s@ == t,
            _ => text is None,
        },
{
    value.as_str()
}

/// `serde_json::Value::as_array`: the elements of an `Array` value, in their
/// order, and nothing for any other value.
#[verifier::external_body]
pub(crate) fn value_as_array<'a>(value: &'a serde_json::Value) -> (items: Option<&'a Vec<serde_json::Value>>)
    ensures
        match json_of(*value) {
            Json::List(list) => items matches Some(found) && found@.len() == list.len() && forall|i: int|
                0 <= i < list.len() ==> json_of(#[trigger] found@[i]) == list[i],
            _ => items is None,
        },
{
    value.as_array()
}

} // verus!
