//! Decoded JSON documents, as far as identity resolution reads them.
//!
//! A document is a `serde_json::Value`. Verified code cannot look inside one, so
//! this module names what a value holds and reads it through `serde_json`'s own
//! accessors, each behind a contract that is believed and not proved.

use vstd::prelude::*;

verus! {

/// `serde_json::Value`, carried through verified code as an opaque value.
#[verifier::external_type_specification]
#[verifier::external_body]
pub struct ExJsonValue(serde_json::Value);

/// Whether the document `v` is a JSON object.
pub uninterp spec fn json_is_object(v: serde_json::Value) -> bool;

/// The members of the JSON object `v`, by name. Meaningful only where
/// `json_is_object(v)` holds.
pub uninterp spec fn json_members(v: serde_json::Value) -> Map<Seq<char>, serde_json::Value>;

/// The text of `v` where `v` is a JSON string, and `None` for every other kind
/// of document.
pub uninterp spec fn json_string(v: serde_json::Value) -> Option<Seq<char>>;

/// The member `key` of `v`: present only where `v` is an object that has a
/// member of that name.
pub open spec fn json_member(v: serde_json::Value, key: Seq<char>) -> Option<serde_json::Value> {
    if json_is_object(v) && json_members(v).contains_key(key) {
        Some(json_members(v)[key])
    } else {
        None
    }
}

/// `serde_json::Value::is_object`: true exactly for the `Object` variant.
#[verifier::external_body]
pub(crate) fn is_object(v: &serde_json::Value) -> (b: bool)
    ensures
        b == json_is_object(*v),
{
    v.is_object()
}

/// `serde_json::Value::get` with a string index: the member of that name where
/// `v` is an object that has one, and `None` where `v` is no object or has no
/// such member.
#[verifier::external_body]
pub(crate) fn get<'a>(v: &'a serde_json::Value, key: &str) -> (member: Option<&'a serde_json::Value>)
    ensures
        member is Some <==> (json_is_object(*v) && json_members(*v).contains_key(key@)),
        member matches Some(m) ==> *m == json_members(*v)[key@],
{
    v.get(key)
}

/// `serde_json::Value::as_str`: the text of the `String` variant, and `None` for
/// every other variant.
#[verifier::external_body]
pub(crate) fn as_str<'a>(v: &'a serde_json::Value) -> (text: Option<&'a str>)
    ensures
        text is Some <==> json_string(*v) is Some,
        text matches Some(s) ==> json_string(*v) == Some(s@),
{
    v.as_str()
}

} // verus!
