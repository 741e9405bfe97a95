//! TOML documents, parsed and read by `toml`.

use crate::document::Document;
use vstd::prelude::*;

verus! {

/// `toml::Value`: a TOML value, which the library reads through the functions below.
#[verifier::external_type_specification]
#[verifier::external_body]
pub struct ExTomlValue(toml::Value);

/// `toml::de::Error`: the complaint of the TOML parser.
#[verifier::external_type_specification]
#[verifier::external_body]
pub struct ExTomlError(toml::de::Error);

/// The document that a `toml::Value` holds.
pub uninterp spec fn toml_document(value: toml::Value) -> Document;

/// The text that a `toml::de::Error` displays.
pub uninterp spec fn toml_error_text(error: toml::de::Error) -> Seq<char>;

/// What parsing `text` as TOML gives: the document, or the text of the parser's complaint.
pub uninterp spec fn toml_parse(text: Seq<char>) -> Result<Document, Seq<char>>;

/// Calls `str::parse` for a `toml::Value`, which is `toml::from_str`.
///
/// Trusted: the outcome depends on the text alone, and is the one that `toml_parse` names.
#[verifier::external_body]
pub(crate) fn parse_toml(text: &str) -> (r: Result<toml::Value, toml::de::Error>)
    ensures
        match r {
            Ok(value) => toml_parse(text@) == Ok::<Document, Seq<char>>(toml_document(value)),
            Err(error) => toml_parse(text@) == Err::<Document, Seq<char>>(toml_error_text(error)),
        },
{
    text.parse::<toml::Value>()
}

/// Calls `toml::Value::get` with a string index.
///
/// Trusted: the entry under `key` where the value is a table that has one, else `None`.
#[verifier::external_body]
pub(crate) fn toml_member<'a>(value: &'a toml::Value, key: &str) -> (r: Option<&'a toml::Value>)
    ensures
        match r {
            Some(entry) => toml_document(*value).member(key@) == Some(toml_document(*entry)),
            None => toml_document(*value).member(key@) is None,
        },
{
    value.get(key)
}

/// Calls `toml::Value::as_str`.
///
/// Trusted: the string where the value is one, else `None`.
#[verifier::external_body]
pub(crate) fn toml_text<'a>(value: &'a toml::Value) -> (r: Option<&'a str>)
    ensures
        match r {
            Some(text) => toml_document(*value).text() == Some(text@),
            None => toml_document(*value).text() is None,
        },
{
    value.as_str()
}

/// Calls `to_string` on a `toml::de::Error`, which formats it by its `Display`.
///
/// Trusted: the text depends on the error alone, and is the one that `toml_error_text` names.
#[verifier::external_body]
pub(crate) fn toml_error_message(error: &toml::de::Error) -> (text: String)
    ensures
        text@ == toml_error_text(*error),
{
    error.to_string()
}

} // verus!
