//! Audits an exercise track against the canonical problem specifications: which exercises
//! the track lacks, and which of its exercises lag behind their canonical version.
//!
//! The library reads nothing itself. It is handed what was read (the answer of the
//! version-control query, the content of files, the body of network answers) and says where
//! to read next and what the report is.

use vstd::prelude::*;

pub mod canonical;
pub mod cmd;
pub mod config;
pub mod document;
pub mod errors;
pub mod exercise_set;
pub mod json_value;
pub mod laws;
pub mod text;
pub mod toml_value;
pub mod version;
pub mod yaml_value;

use crate::config::{config_outcome, config_parse_error, declared_config, TrackConfig, TrackConfigView};
use crate::document::Document;
use crate::errors::{fetched, outcome, AuditError, ErrorKind, ErrorView};
use crate::json_value::{json_document, json_error_message, json_parse, parse_json};
use crate::text::{text_from_utf8, trim, trimmed};
use vstd::string::*;

verus! {

/// The file at the root of a track that holds its configuration.
pub const CONFIG_FILE: &'static str = "config.json";

/// Said of an answer of the version-control system that is no text.
pub const NOT_UTF8: &'static str = "the answer of the version-control query is not valid UTF-8";

/// The value of the outcome of the version-control query: the bytes answered, or the cause
/// for which there is no answer.
pub open spec fn queried(r: Result<Vec<u8>, String>) -> Result<Seq<u8>, Seq<char>> {
    match r {
        Ok(bytes) => Ok(bytes@),
        Err(cause) => Err(cause@),
    }
}

/// A failure of the version-control query, for the given cause.
pub open spec fn vcs_query_error(cause: Seq<char>) -> ErrorView {
    ErrorView { kind: ErrorKind::VcsQueryError, cause }
}

/// A failure to read the track configuration, for the given cause.
pub open spec fn config_not_found(cause: Seq<char>) -> ErrorView {
    ErrorView { kind: ErrorKind::ConfigNotFound, cause }
}

/// The root directory of a track, given the outcome of asking the version-control system for
/// the top-level directory: the answer, decoded and without the white space around it.
pub open spec fn track_root(query: Result<Seq<u8>, Seq<char>>) -> Result<Seq<char>, ErrorView> {
    match query {
        Err(cause) => Err(vcs_query_error(cause)),
        Ok(bytes) => if vstd::utf8::valid_utf8(bytes) {
            Ok(trimmed(vstd::utf8::decode_utf8(bytes)))
        } else {
            Err(vcs_query_error(NOT_UTF8@))
        },
    }
}

/// The document that the track configuration is, given the outcome of reading its file.
pub open spec fn config_value(content: Result<Seq<char>, Seq<char>>) -> Result<
    Document,
    ErrorView,
> {
    match content {
        Err(cause) => Err(config_not_found(cause)),
        Ok(text) => match json_parse(text) {
            Ok(document) => Ok(document),
            Err(complaint) => Err(config_parse_error(complaint)),
        },
    }
}

/// The configuration of a track, given the outcome of reading its file.
pub open spec fn track_config(content: Result<Seq<char>, Seq<char>>) -> Result<
    TrackConfigView,
    ErrorView,
> {
    match config_value(content) {
        Err(error) => Err(error),
        Ok(document) => match declared_config(document) {
            Ok(config) => Ok(config),
            Err(cause) => Err(config_parse_error(cause)),
        },
    }
}

/// The value of the outcome of parsing a configuration file.
pub open spec fn value_outcome(r: Result<serde_json::Value, AuditError>) -> Result<
    Document,
    ErrorView,
> {
    match r {
        Ok(value) => Ok(json_document(value)),
        Err(error) => Err(error@),
    }
}

/// Says what the version-control system answered when it was asked for the top-level
/// directory. `succeeded` tells whether the query ended in success, `stdout` is what it
/// wrote as its answer, and `complaint` is the text of what it wrote as its complaint.
///
/// A query that did not succeed has no answer: a directory that is not under version control
/// is told by that. Its cause is the complaint, without the white space around it.
pub fn query_answer(succeeded: bool, stdout: Vec<u8>, complaint: String) -> (r: Result<
    Vec<u8>,
    String,
>)
    ensures
        queried(r) == if succeeded {
            Ok::<Seq<u8>, Seq<char>>(stdout@)
        } else {
            Err::<Seq<u8>, Seq<char>>(trimmed(complaint@))
        },
{
    if succeeded {
        Ok(stdout)
    } else {
        Err(trim(complaint.as_str()))
    }
}

/// Finds the root directory of a track. `query` is the outcome of asking the version-control
/// system for the top-level directory: the bytes that it answered, or the cause for which
/// it gave no answer.
///
/// Fails with `VcsQueryError` where there is no answer, or where the answer is no text.
pub fn get_track_root(query: Result<Vec<u8>, String>) -> (r: Result<String, AuditError>)
    ensures
        outcome(r) == track_root(queried(query)),
{
    match query {
        Err(cause) => Err(AuditError::new(ErrorKind::VcsQueryError, cause)),
        Ok(bytes) => match text_from_utf8(bytes) {
            Some(answer) => Ok(trim(answer.as_str())),
            None => Err(AuditError::new(ErrorKind::VcsQueryError, String::from_str(NOT_UTF8))),
        },
    }
}

/// Parses the configuration of a track. `content` is the outcome of reading the file
/// [`CONFIG_FILE`] at the track's root: its content, or the cause for which it could not be
/// read.
///
/// Fails with `ConfigNotFound` where the file could not be read, and with `ConfigParseError`
/// where its content is no JSON.
pub fn get_config_value(content: &Result<String, String>) -> (r: Result<
    serde_json::Value,
    AuditError,
>)
    ensures
        value_outcome(r) == config_value(fetched(*content)),
{
    match content {
        Err(cause) => Err(AuditError::new(ErrorKind::ConfigNotFound, cause.clone())),
        Ok(text) => match parse_json(text.as_str()) {
            Ok(value) => Ok(value),
            Err(error) => Err(
                AuditError::new(ErrorKind::ConfigParseError, json_error_message(&error)),
            ),
        },
    }
}

/// Loads the configuration of a track. `content` is the outcome of reading the file
/// [`CONFIG_FILE`] at the track's root.
///
/// Fails with `ConfigNotFound` where the file could not be read, and with `ConfigParseError`
/// where its content is no JSON document that declares a language and exercises.
pub fn load_track_config(content: &Result<String, String>) -> (r: Result<TrackConfig, AuditError>)
    ensures
        config_outcome(r) == track_config(fetched(*content)),
{
    match get_config_value(content) {
        Ok(value) => TrackConfig::from_json(&value),
        Err(error) => Err(error),
    }
}

} // verus!
