//! JSON documents: reading their members, and setting one.
use vstd::prelude::*;

use crate::text::optional_str;

verus! {

/// A JSON value of the outside crate `serde_json`.
#[verifier::external_type_specification]
#[verifier::external_body]
pub struct ExValue(serde_json::Value);

/// The reason for which `serde_json` refuses a document.
#[verifier::external_type_specification]
#[verifier::external_body]
pub struct ExJsonError(serde_json::Error);

/// What a JSON value holds, as far as the blog reads it: texts, and the
/// members of objects.
pub enum Json {
    Text(Seq<char>),
    Object(Map<Seq<char>, Json>),
    Other,
}

/// What a parsed JSON value holds. A string holds its text and an object its
/// members by their names; null, a boolean, a number and an array are other
/// values.
pub uninterp spec fn json_contents(value: serde_json::Value) -> Json;

/// What the document in `bytes` holds, as `serde_json` reads it; nothing where
/// `bytes` is no JSON document.
pub uninterp spec fn json_document(bytes: Seq<u8>) -> Option<Json>;

/// The member of an object with a name. No other value has members.
pub open spec fn member(json: Json, name: Seq<char>) -> Option<Json> {
    match json {
        Json::Object(members) => if members.contains_key(name) {
            Some(members[name])
        } else {
            None
        },
        _ => None,
    }
}

/// The text of a string. No other value has one.
pub open spec fn text_in(json: Json) -> Option<Seq<char>> {
    match json {
        Json::Text(text) => Some(text),
        _ => None,
    }
}

/// The text of an object's member.
pub open spec fn member_text(json: Json, name: Seq<char>) -> Option<Seq<char>> {
    match member(json, name) {
        Some(json) => text_in(json),
        None => None,
    }
}

/// Parses a JSON document with `serde_json::from_slice`. Claimed of it: the
/// bytes alone decide whether they are a document and what it holds.
#[verifier::external_body]
pub(crate) fn parse_document(bytes: &[u8]) -> (r: Result<serde_json::Value, serde_json::Error>)
    ensures
        match r {
            Ok(value) => json_document(bytes@) == Some(json_contents(value)),
            Err(_) => json_document(bytes@) is None,
        },
{
    serde_json::from_slice(bytes)
}

/// Looks up a member with `serde_json::Value::get`. Claimed of it: it gives
/// the member of that name where the value is an object that has one, and
/// nothing otherwise.
#[verifier::external_body]
pub(crate) fn get_member<'a>(value: &'a serde_json::Value, name: &str) -> (r: Option<
    &'a serde_json::Value,
>)
    ensures
        match r {
            Some(found) => member(json_contents(*value), name@) == Some(json_contents(*found)),
            None => member(json_contents(*value), name@) is None,
        },
{
    value.get(name)
}

/// Reads a string with `serde_json::Value::as_str`. Claimed of it: it gives
/// the text of a string and nothing for any other value.
#[verifier::external_body]
pub(crate) fn get_text<'a>(value: &'a serde_json::Value) -> (r: Option<&'a str>)
    ensures
        optional_str(r) == text_in(json_contents(*value)),
{
    value.as_str()
}

/// Sets a member with the index operator of a `serde_json::Value` that can be
/// written to. Claimed of it: the object has the member with the text then,
/// in the place of one with that name, and its other members as before. On a
/// value that is no object the operator may panic.
#[verifier::external_body]
pub(crate) fn set_text_member(value: serde_json::Value, name: &str, text: &str) -> (r:
    serde_json::Value)
    requires
        json_contents(value) is Object,
    ensures
        json_contents(r) == Json::Object(
            json_contents(value)->Object_0.insert(name@, Json::Text(text@)),
        ),
{
    let mut value = value;
    value[name] = serde_json::Value::String(text.to_string());
    value
}

/// The text of an object's member.
pub fn get_member_text<'a>(value: &'a serde_json::Value, name: &str) -> (r: Option<&'a str>)
    ensures
        optional_str(r) == member_text(json_contents(*value), name@),
{
    match get_member(value, name) {
        Some(found) => get_text(found),
        None => None,
    }
}

/// A member is found by its name in the object that has it, and nowhere
/// else; a text is that of a string, and nothing else has one.
pub proof fn law_members_are_found_by_name(
    json: Json,
    name: Seq<char>,
    value: Json,
    text: Seq<char>,
)
    ensures
        member(json, name) == Some(value) <==> json is Object
            && json->Object_0.contains_key(name) && json->Object_0[name] == value,
        text_in(json) == Some(text) <==> json == Json::Text(text),
        member_text(json, name) == Some(text) <==> member(json, name) == Some(Json::Text(text)),
{
}

} // verus!
