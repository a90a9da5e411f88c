//! JSON objects as `serde_json` reads, holds and writes them.
//!
//! Nothing in this file is proved: it says what the rest of the library
//! believes of `serde_json`. An object is known to the library by its members
//! alone, each value standing as the compact JSON text that `serde_json`
//! writes for it.

use vstd::prelude::*;

verus! {

/// `serde_json::Value`, a JSON value of any kind. The library never looks
/// inside one.
#[verifier::external_type_specification]
#[verifier::external_body]
pub struct ExJsonValue(serde_json::Value);

/// `serde_json::Map`, the members of a JSON object.
#[verifier::external_type_specification]
#[verifier::external_body]
#[verifier::reject_recursive_types(K)]
#[verifier::reject_recursive_types(V)]
pub struct ExJsonMap<K, V>(serde_json::Map<K, V>);

/// `serde_json::Error`, the reason for which a text was rejected.
#[verifier::external_type_specification]
#[verifier::external_body]
pub struct ExJsonError(serde_json::Error);

/// What `object` holds: each member's name with the compact JSON text of its
/// value.
pub uninterp spec fn object_members(object: serde_json::Map<String, serde_json::Value>) -> Map<
    Seq<char>,
    Seq<char>,
>;

/// What `serde_json::from_str` makes of `text` when it is asked for an
/// object: `None` where it rejects the text, else the members of the object.
pub uninterp spec fn json_object(text: Seq<char>) -> Option<Map<Seq<char>, Seq<char>>>;

/// The compact JSON text of the string `s`, quoted and escaped, as
/// `serde_json` writes the value `Value::String(s)`.
pub uninterp spec fn json_string_text(s: Seq<char>) -> Seq<char>;

/// The compact JSON text that `serde_json::to_string` writes for an object
/// with the members `members`, or `None` where it fails on such an object.
pub uninterp spec fn json_object_text(members: Map<Seq<char>, Seq<char>>) -> Option<Seq<char>>;

/// Calls `serde_json::from_str` for a `serde_json::Map`. The call accepts
/// `text` exactly if `json_object` has members for it, and the object that it
/// returns holds those members.
#[verifier::external_body]
pub(crate) fn parse_object(text: &str) -> (parsed: Result<
    serde_json::Map<String, serde_json::Value>,
    serde_json::Error,
>)
    ensures
        match parsed {
            Ok(object) => json_object(text@) == Some(object_members(object)),
            Err(_) => json_object(text@) is None,
        },
{
    serde_json::from_str(text)
}

/// Calls `serde_json::Map::insert` with the string value `value` under the
/// name `name`. Afterwards `name` stands for that string, whether or not the
/// object had such a member, and every other member is as before.
#[verifier::external_body]
pub(crate) fn insert_string(
    object: &mut serde_json::Map<String, serde_json::Value>,
    name: &str,
    value: &str,
)
    ensures
        object_members(*final(object)) == object_members(*old(object)).insert(
            name@,
            json_string_text(value@),
        ),
{
    object.insert(name.to_owned(), serde_json::Value::String(value.to_owned()));
}

/// Calls `serde_json::Map::get` and hands out the value found as its compact
/// JSON text: the text that `object_members` has for `name`, or `None` where
/// the object has no such member.
#[verifier::external_body]
pub(crate) fn member_text(object: &serde_json::Map<String, serde_json::Value>, name: &str) -> (text:
    Option<String>)
    ensures
        match text {
            Some(value) => object_members(*object).contains_key(name@) && object_members(
                *object,
            )[name@] == value@,
            None => !object_members(*object).contains_key(name@),
        },
{
    object.get(name).map(|value| value.to_string())
}

/// Calls `serde_json::to_string` on `object`. Built without its feature
/// `preserve_order`, as it is here, `serde_json` keeps the members of an
/// object ordered by name, so what the call returns depends on the members
/// alone.
#[verifier::external_body]
pub(crate) fn object_text(object: &serde_json::Map<String, serde_json::Value>) -> (text: Option<
    String,
>)
    ensures
        match text {
            Some(written) => json_object_text(object_members(*object)) == Some(written@),
            None => json_object_text(object_members(*object)) is None,
        },
{
    serde_json::to_string(object).ok()
}

} // verus!
