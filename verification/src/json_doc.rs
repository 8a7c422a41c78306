//! JSON documents, read with `serde_json`.
//!
//! A parsed document is a `serde_json::Value`, which the verifier cannot look
//! into. [`Json`] is the part of such a value that this library reads: strings
//! and the members of objects. The functions below are the only places where
//! `serde_json` is called; their contracts are assumed, not proved.

use vstd::prelude::*;

verus! {

/// What this library reads of a JSON value.
pub enum Json {
    /// A string.
    Text(Seq<char>),
    /// An object: its members by name.
    Object(Map<Seq<char>, Json>),
    /// Null, a boolean, a number or an array.
    Other,
}

impl Json {
    /// The member called `name`, where this is an object that has one.
    pub open spec fn member(self, name: Seq<char>) -> Option<Json> {
        match self {
            Json::Object(members) if members.contains_key(name) => Some(members[name]),
            _ => None,
        }
    }

    /// The string, where this is one.
    pub open spec fn text(self) -> Option<Seq<char>> {
        match self {
            Json::Text(text) => Some(text),
            _ => None,
        }
    }

    /// The string that the member called `name` is, where there is such a
    /// member and it is a string.
    pub open spec fn text_member(self, name: Seq<char>) -> Option<Seq<char>> {
        match self.member(name) {
            Some(found) => found.text(),
            None => None,
        }
    }
}

/// `serde_json::Value`, a parsed JSON value.
#[verifier::external_type_specification]
#[verifier::external_body]
pub struct ExValue(serde_json::Value);

/// `serde_json::Error`, the error that `serde_json` reports for a text that
/// is no JSON document.
#[verifier::external_type_specification]
#[verifier::external_body]
pub struct ExError(serde_json::Error);

/// What `value` holds, as far as this library reads it.
pub uninterp spec fn json_model(value: serde_json::Value) -> Json;

/// What `serde_json::from_str` makes of `text` when asked for a
/// `serde_json::Value`: the value's contents, or `None` where the text is
/// rejected.
pub uninterp spec fn json_document(text: Seq<char>) -> Option<Json>;

/// Calls `serde_json::from_str` for a `serde_json::Value`. The result is the
/// value that `json_document` names, or an error exactly where
/// `json_document` names none.
#[verifier::external_body]
pub(crate) fn parse_document(text: &str) -> (res: Result<serde_json::Value, serde_json::Error>)
    ensures
        match res {
            Ok(value) => json_document(text@) == Some(json_model(value)),
            Err(_) => json_document(text@) is None,
        },
{
    serde_json::from_str::<serde_json::Value>(text)
}

/// Calls `serde_json::Value::get` with a string index: the member of that
/// name where `value` is an object that has one, `None` otherwise.
#[verifier::external_body]
pub(crate) fn member<'a>(value: &'a serde_json::Value, name: &str) -> (res: Option<
    &'a serde_json::Value,
>)
    ensures
        match res {
            Some(found) => json_model(*value).member(name@) == Some(json_model(*found)),
            None => json_model(*value).member(name@) is None,
        },
{
    value.get(name)
}

/// Calls `serde_json::Value::as_str`: the string where `value` is one, `None`
/// otherwise.
#[verifier::external_body]
pub(crate) fn text_of<'a>(value: &'a serde_json::Value) -> (res: Option<&'a str>)
    ensures
        match res {
            Some(text) => json_model(*value).text() == Some(text@),
            None => json_model(*value).text() is None,
        },
{
    value.as_str()
}

/// Whether no two strings of `names` hold the same characters.
pub open spec fn distinct(names: Seq<String>) -> bool {
    forall|i: int, j: int|
        0 <= i < j < names.len() ==> (#[trigger] names[i])@ != (#[trigger] names[j])@
}

/// Calls `serde_json::Value::as_object` and `serde_json::Map::keys`: the
/// names of the members where `value` is an object, `None` otherwise. Every
/// member's name is in the list once, and every name in the list is a
/// member's.
#[verifier::external_body]
pub(crate) fn member_names(value: &serde_json::Value) -> (res: Option<Vec<String>>)
    ensures
        match res {
            Some(names) => {
                &&& json_model(*value) is Object
                &&& distinct(names@)
                &&& forall|name: Seq<char>|
                    (#[trigger] json_model(*value).member(name)) is Some <==> exists|i: int|
                        0 <= i < names@.len() && (#[trigger] names@[i])@ == name
            },
            None => !(json_model(*value) is Object),
        },
{
    match value.as_object() {
        Some(members) => Some(members.keys().cloned().collect()),
        None => None,
    }
}

} // verus!
