//! YAML documents, parsed and read by `serde_yaml`.

use crate::document::Document;
use vstd::prelude::*;

verus! {

/// `serde_yaml::Value`: a YAML value, which the library reads through the functions below.
#[verifier::external_type_specification]
#[verifier::external_body]
pub struct ExYamlValue(serde_yaml::Value);

/// `serde_yaml::Error`: the complaint of the YAML parser.
#[verifier::external_type_specification]
#[verifier::external_body]
pub struct ExYamlError(serde_yaml::Error);

/// The document that a `serde_yaml::Value` holds. A tagged value holds what the value under
/// its tags holds. A mapping holds the entries whose key is a string.
pub uninterp spec fn yaml_document(value: serde_yaml::Value) -> Document;

/// The text that a `serde_yaml::Error` displays.
pub uninterp spec fn yaml_error_text(error: serde_yaml::Error) -> Seq<char>;

/// What parsing `text` as YAML gives: the document, or the text of the parser's complaint.
pub uninterp spec fn yaml_parse(text: Seq<char>) -> Result<Document, Seq<char>>;

/// Calls `serde_yaml::from_str` for a `serde_yaml::Value`.
///
/// Trusted: the outcome depends on the text alone, and is the one that `yaml_parse` names.
#[verifier::external_body]
pub(crate) fn parse_yaml(text: &str) -> (r: Result<serde_yaml::Value, serde_yaml::Error>)
    ensures
        match r {
            Ok(value) => yaml_parse(text@) == Ok::<Document, Seq<char>>(yaml_document(value)),
            Err(error) => yaml_parse(text@) == Err::<Document, Seq<char>>(yaml_error_text(error)),
        },
{
    serde_yaml::from_str(text)
}

/// Calls `serde_yaml::Value::get` with a string index.
///
/// Trusted: the entry whose key is the string `key` where the value, under its tags, is a
/// mapping that has one, else `None`.
#[verifier::external_body]
pub(crate) fn yaml_member<'a>(value: &'a serde_yaml::Value, key: &str) -> (r: Option<
    &'a serde_yaml::Value,
>)
    ensures
        match r {
            Some(entry) => yaml_document(*value).member(key@) == Some(yaml_document(*entry)),
            None => yaml_document(*value).member(key@) is None,
        },
{
    value.get(key)
}

/// Calls `serde_yaml::Value::as_str`.
///
/// Trusted: the string where the value, under its tags, is one, else `None`.
#[verifier::external_body]
pub(crate) fn yaml_text<'a>(value: &'a serde_yaml::Value) -> (r: Option<&'a str>)
    ensures
        match r {
            Some(text) => yaml_document(*value).text() == Some(text@),
            None => yaml_document(*value).text() is None,
        },
{
    value.as_str()
}

/// Calls `to_string` on a `serde_yaml::Error`, which formats it by its `Display`.
///
/// Trusted: the text depends on the error alone, and is the one that `yaml_error_text` names.
#[verifier::external_body]
pub(crate) fn yaml_error_message(error: &serde_yaml::Error) -> (text: String)
    ensures
        text@ == yaml_error_text(*error),
{
    error.to_string()
}

} // verus!
