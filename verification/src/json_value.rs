//! JSON documents, parsed and read by `serde_json`.

use crate::document::Document;
use vstd::prelude::*;

verus! {

/// `serde_json::Value`: a JSON value, which the library reads through the functions below.
#[verifier::external_type_specification]
#[verifier::external_body]
pub struct ExJsonValue(serde_json::Value);

/// `serde_json::Error`: the complaint of the JSON parser.
#[verifier::external_type_specification]
#[verifier::external_body]
pub struct ExJsonError(serde_json::Error);

/// The document that a `serde_json::Value` holds.
pub uninterp spec fn json_document(value: serde_json::Value) -> Document;

/// The text that a `serde_json::Error` displays.
pub uninterp spec fn json_error_text(error: serde_json::Error) -> Seq<char>;

/// What parsing `text` as JSON gives: the document, or the text of the parser's complaint.
pub uninterp spec fn json_parse(text: Seq<char>) -> Result<Document, Seq<char>>;

/// The documents that a sequence of values holds, one for one.
pub open spec fn json_documents(values: Seq<serde_json::Value>) -> Seq<Document> {
    values.map_values(|value: serde_json::Value| json_document(value))
}

/// Calls `serde_json::from_str` for a `serde_json::Value`.
///
/// Trusted: the outcome depends on the text alone, and is the one that `json_parse` names.
#[verifier::external_body]
pub(crate) fn parse_json(text: &str) -> (r: Result<serde_json::Value, serde_json::Error>)
    ensures
        match r {
            Ok(value) => json_parse(text@) == Ok::<Document, Seq<char>>(json_document(value)),
            Err(error) => json_parse(text@) == Err::<Document, Seq<char>>(json_error_text(error)),
        },
{
    serde_json::from_str(text)
}

/// Calls `serde_json::Value::get` with a string index.
///
/// Trusted: the entry under `key` where the value is an object that has one, else `None`.
#[verifier::external_body]
pub(crate) fn json_member<'a>(value: &'a serde_json::Value, key: &str) -> (r: Option<
    &'a serde_json::Value,
>)
    ensures
        match r {
            Some(entry) => json_document(*value).member(key@) == Some(json_document(*entry)),
            None => json_document(*value).member(key@) is None,
        },
{
    value.get(key)
}

/// Calls `serde_json::Value::as_str`.
///
/// Trusted: the string where the value is one, else `None`.
#[verifier::external_body]
pub(crate) fn json_text<'a>(value: &'a serde_json::Value) -> (r: Option<&'a str>)
    ensures
        match r {
            Some(text) => json_document(*value).text() == Some(text@),
            None => json_document(*value).text() is None,
        },
{
    value.as_str()
}

/// Calls `serde_json::Value::as_bool`.
///
/// Trusted: the boolean where the value is one, else `None`.
#[verifier::external_body]
pub(crate) fn json_flag(value: &serde_json::Value) -> (r: Option<bool>)
    ensures
        r == json_document(*value).flag(),
{
    value.as_bool()
}

/// Calls `serde_json::Value::as_array`.
///
/// Trusted: the elements, in order, where the value is an array, else `None`.
#[verifier::external_body]
pub(crate) fn json_items<'a>(value: &'a serde_json::Value) -> (r: Option<
    &'a Vec<serde_json::Value>,
>)
    ensures
        match r {
            Some(items) => json_document(*value).items() == Some(json_documents(items@)),
            None => json_document(*value).items() is None,
        },
{
    value.as_array()
}

/// Calls `to_string` on a `serde_json::Error`, which formats it by its `Display`.
///
/// Trusted: the text depends on the error alone, and is the one that `json_error_text` names.
#[verifier::external_body]
pub(crate) fn json_error_message(error: &serde_json::Error) -> (text: String)
    ensures
        text@ == json_error_text(*error),
{
    error.to_string()
}

} // verus!
