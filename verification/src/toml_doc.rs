//! TOML documents, read with `toml`.
//!
//! A parsed document is a `toml::Value`, which the verifier cannot look into.
//! [`Toml`] is the part of such a value that this library reads: strings and
//! the entries of tables. The functions below are the only places where
//! `toml` is called; their contracts are assumed, not proved.

use vstd::prelude::*;

verus! {

/// What this library reads of a TOML value.
pub enum Toml {
    /// A string.
    Text(Seq<char>),
    /// A table: its entries by key.
    Table(Map<Seq<char>, Toml>),
    /// An integer, a float, a boolean, a date or an array.
    Other,
}

impl Toml {
    /// The entry under `key`, where this is a table that has one.
    pub open spec fn entry(self, key: Seq<char>) -> Option<Toml> {
        match self {
            Toml::Table(entries) if entries.contains_key(key) => Some(entries[key]),
            _ => None,
        }
    }

    /// The string, where this is one.
    pub open spec fn text(self) -> Option<Seq<char>> {
        match self {
            Toml::Text(text) => Some(text),
            _ => None,
        }
    }
}

/// `toml::Value`, a parsed TOML value.
#[verifier::external_type_specification]
#[verifier::external_body]
pub struct ExValue(::toml::Value);

/// `toml::de::Error`, the error that `toml` reports for a text that is no
/// TOML document.
#[verifier::external_type_specification]
#[verifier::external_body]
pub struct ExError(::toml::de::Error);

/// What `value` holds, as far as this library reads it.
pub uninterp spec fn toml_model(value: ::toml::Value) -> Toml;

/// What `toml::from_str` makes of the document `text` when asked for a
/// `toml::Value`: the value's contents, or `None` where the text is
/// rejected.
pub uninterp spec fn toml_document(text: Seq<char>) -> Option<Toml>;

/// Calls `toml::from_str` for a `toml::Value`. The result is the value that
/// `toml_document` names, or an error exactly where `toml_document` names
/// none.
#[verifier::external_body]
pub(crate) fn parse_table(text: &str) -> (res: Result<::toml::Value, ::toml::de::Error>)
    ensures
        match res {
            Ok(value) => toml_document(text@) == Some(toml_model(value)),
            Err(_) => toml_document(text@) is None,
        },
{
    ::toml::from_str::<::toml::Value>(text)
}

/// Calls `toml::Value::get` with a string index: the entry under that key
/// where `value` is a table that has one, `None` otherwise.
#[verifier::external_body]
pub(crate) fn entry<'a>(value: &'a ::toml::Value, key: &str) -> (res: Option<&'a ::toml::Value>)
    ensures
        match res {
            Some(found) => toml_model(*value).entry(key@) == Some(toml_model(*found)),
            None => toml_model(*value).entry(key@) is None,
        },
{
    value.get(key)
}

/// Calls `toml::Value::as_str`: the string where `value` is one, `None`
/// otherwise.
#[verifier::external_body]
pub(crate) fn text_of<'a>(value: &'a ::toml::Value) -> (res: Option<&'a str>)
    ensures
        match res {
            Some(text) => toml_model(*value).text() == Some(text@),
            None => toml_model(*value).text() is None,
        },
{
    value.as_str()
}

} // verus!
