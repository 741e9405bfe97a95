//! The version readers: one per track language, each of which finds the version of an
//! implemented exercise in the metadata file that its language keeps per exercise.

use crate::document::Document;
use crate::errors::{fetched, outcome, AuditError, ErrorKind, ErrorView};
use crate::text::{
    leading_components, lowercase, release, release_part, texts, three_components, to_lowercase,
};
use crate::toml_value::{
    parse_toml, toml_document, toml_error_message, toml_member, toml_parse, toml_text,
};
use crate::yaml_value::{
    parse_yaml, yaml_document, yaml_error_message, yaml_member, yaml_parse, yaml_text,
};
use vstd::prelude::*;
use vstd::string::*;

verus! {

/// The directory of a track, and of the specification, that holds one directory per exercise.
pub const EXERCISES_DIR: &'static str = "exercises";

/// The metadata file of an exercise in a Rust track.
pub const CARGO_MANIFEST: &'static str = "Cargo.toml";

/// The metadata file of an exercise in a Haskell track.
pub const PACKAGE_MANIFEST: &'static str = "package.yaml";

/// Said of a metadata file that was parsed and holds no version string where one is expected.
pub const NO_VERSION: &'static str = "the metadata file holds no version string";

/// The failure to read a metadata file, for the given cause.
pub open spec fn track_file_missing(cause: Seq<char>) -> ErrorView {
    ErrorView { kind: ErrorKind::TrackFileMissing, cause }
}

/// The failure to parse a metadata file, with the parser's complaint.
pub open spec fn track_file_parse_error(complaint: Seq<char>) -> ErrorView {
    ErrorView { kind: ErrorKind::TrackFileParseError, cause: complaint }
}

/// The failure to find a version string in a parsed metadata file.
pub open spec fn version_field_missing() -> ErrorView {
    ErrorView { kind: ErrorKind::VersionFieldMissing, cause: NO_VERSION@ }
}

/// The version that a Cargo manifest states: the string `version` of its table `package`.
pub open spec fn cargo_version(manifest: Document) -> Result<Seq<char>, ErrorView> {
    match manifest.member("package"@) {
        Some(package) => match package.text_member("version"@) {
            Some(version) => Ok(version),
            None => Err(version_field_missing()),
        },
        None => Err(version_field_missing()),
    }
}

/// A version cut to its release: without its pre-release and build suffix, and then to the
/// first three of its components.
pub open spec fn release_version(version: Seq<char>) -> Seq<char> {
    leading_components(release_part(version), 3)
}

/// The version that a Haskell package description states: the release of its string
/// `version`.
pub open spec fn package_version(description: Document) -> Result<Seq<char>, ErrorView> {
    match description.text_member("version"@) {
        Some(version) => Ok(release_version(version)),
        None => Err(version_field_missing()),
    }
}

/// What the Rust reader makes of the outcome of reading an exercise's `Cargo.toml`.
pub open spec fn rust_track_version(manifest: Result<Seq<char>, Seq<char>>) -> Result<
    Seq<char>,
    ErrorView,
> {
    match manifest {
        Err(cause) => Err(track_file_missing(cause)),
        Ok(content) => match toml_parse(content) {
            Err(complaint) => Err(track_file_parse_error(complaint)),
            Ok(document) => cargo_version(document),
        },
    }
}

/// What the Haskell reader makes of the outcome of reading an exercise's `package.yaml`.
pub open spec fn haskell_track_version(manifest: Result<Seq<char>, Seq<char>>) -> Result<
    Seq<char>,
    ErrorView,
> {
    match manifest {
        Err(cause) => Err(track_file_missing(cause)),
        Ok(content) => match yaml_parse(content) {
            Err(complaint) => Err(track_file_parse_error(complaint)),
            Ok(document) => package_version(document),
        },
    }
}

/// The path of an exercise's metadata file below the track's root, one component each.
pub open spec fn manifest_location(exercise_name: Seq<char>, manifest_name: Seq<char>) -> Seq<
    Seq<char>,
> {
    seq![EXERCISES_DIR@, exercise_name, manifest_name]
}

/// Makes the path `exercises/<exercise_name>/<file_name>`, one component each.
pub fn exercise_file(exercise_name: &str, file_name: &str) -> (path: Vec<String>)
    ensures
        texts(path@) == manifest_location(exercise_name@, file_name@),
{
    let mut path: Vec<String> = Vec::new();
    path.push(String::from_str(EXERCISES_DIR));
    path.push(exercise_name.to_owned());
    path.push(file_name.to_owned());
    path
}

/// The capability to find the version of an implemented exercise.
pub trait GetTrackVersion {
    /// The name of the file that holds the metadata of one exercise.
    spec fn manifest_name(&self) -> Seq<char>;

    /// The version that stands in the metadata file, given the outcome of reading it, or
    /// the failure to find one.
    spec fn track_version(&self, manifest: Result<Seq<char>, Seq<char>>) -> Result<
        Seq<char>,
        ErrorView,
    >;

    /// Says where the metadata file of an exercise lies below the track's root.
    fn manifest_path(&self, exercise_name: &str) -> (path: Vec<String>)
        ensures
            texts(path@) == manifest_location(exercise_name@, self.manifest_name()),
    ;

    /// Finds the version in the metadata file of an exercise. `manifest` is the outcome of
    /// reading that file: its content, or the cause for which it could not be read.
    fn get_track_version(&self, manifest: &Result<String, String>) -> (r: Result<
        String,
        AuditError,
    >)
        ensures
            outcome(r) == self.track_version(fetched(*manifest)),
    ;
}

/// Reads the version of an exercise of a Rust track from its `Cargo.toml`.
#[derive(Clone, Copy, Debug, PartialEq, Eq, Structural)]
pub struct RustVersionReader;

/// Reads the version of an exercise of a Haskell track from its `package.yaml`.
#[derive(Clone, Copy, Debug, PartialEq, Eq, Structural)]
pub struct HaskellVersionReader;

impl RustVersionReader {
    /// Finds the version in a parsed `Cargo.toml`.
    pub fn version_in(manifest: &toml::Value) -> (r: Result<String, AuditError>)
        ensures
            outcome(r) == cargo_version(toml_document(*manifest)),
    {
        let found = match toml_member(manifest, "package") {
            Some(package) => match toml_member(package, "version") {
                Some(version) => toml_text(version),
                None => None,
            },
            None => None,
        };
        match found {
            Some(version) => Ok(version.to_owned()),
            None => Err(AuditError::new(ErrorKind::VersionFieldMissing, String::from_str(NO_VERSION))),
        }
    }
}

impl GetTrackVersion for RustVersionReader {
    open spec fn manifest_name(&self) -> Seq<char> {
        CARGO_MANIFEST@
    }

    open spec fn track_version(&self, manifest: Result<Seq<char>, Seq<char>>) -> Result<
        Seq<char>,
        ErrorView,
    > {
        rust_track_version(manifest)
    }

    fn manifest_path(&self, exercise_name: &str) -> (path: Vec<String>) {
        exercise_file(exercise_name, CARGO_MANIFEST)
    }

    fn get_track_version(&self, manifest: &Result<String, String>) -> (r: Result<
        String,
        AuditError,
    >) {
        match manifest {
            Err(cause) => Err(AuditError::new(ErrorKind::TrackFileMissing, cause.clone())),
            Ok(content) => match parse_toml(content.as_str()) {
                Err(error) => Err(
                    AuditError::new(ErrorKind::TrackFileParseError, toml_error_message(&error)),
                ),
                Ok(document) => RustVersionReader::version_in(&document),
            },
        }
    }
}

impl HaskellVersionReader {
    /// Finds the version in a parsed `package.yaml`.
    pub fn version_in(description: &serde_yaml::Value) -> (r: Result<String, AuditError>)
        ensures
            outcome(r) == package_version(yaml_document(*description)),
    {
        let found = match yaml_member(description, "version") {
            Some(version) => yaml_text(version),
            None => None,
        };
        match found {
            Some(version) => Ok(three_components(release(version).as_str())),
            None => Err(AuditError::new(ErrorKind::VersionFieldMissing, String::from_str(NO_VERSION))),
        }
    }
}

impl GetTrackVersion for HaskellVersionReader {
    open spec fn manifest_name(&self) -> Seq<char> {
        PACKAGE_MANIFEST@
    }

    open spec fn track_version(&self, manifest: Result<Seq<char>, Seq<char>>) -> Result<
        Seq<char>,
        ErrorView,
    > {
        haskell_track_version(manifest)
    }

    fn manifest_path(&self, exercise_name: &str) -> (path: Vec<String>) {
        exercise_file(exercise_name, PACKAGE_MANIFEST)
    }

    fn get_track_version(&self, manifest: &Result<String, String>) -> (r: Result<
        String,
        AuditError,
    >) {
        match manifest {
            Err(cause) => Err(AuditError::new(ErrorKind::TrackFileMissing, cause.clone())),
            Ok(content) => match parse_yaml(content.as_str()) {
                Err(error) => Err(
                    AuditError::new(ErrorKind::TrackFileParseError, yaml_error_message(&error)),
                ),
                Ok(document) => HaskellVersionReader::version_in(&document),
            },
        }
    }
}

/// A registered version reader.
#[derive(Clone, Copy, Debug, PartialEq, Eq, Structural)]
pub enum VersionReader {
    Rust(RustVersionReader),
    Haskell(HaskellVersionReader),
}

impl GetTrackVersion for VersionReader {
    open spec fn manifest_name(&self) -> Seq<char> {
        match self {
            VersionReader::Rust(reader) => reader.manifest_name(),
            VersionReader::Haskell(reader) => reader.manifest_name(),
        }
    }

    open spec fn track_version(&self, manifest: Result<Seq<char>, Seq<char>>) -> Result<
        Seq<char>,
        ErrorView,
    > {
        match self {
            VersionReader::Rust(reader) => reader.track_version(manifest),
            VersionReader::Haskell(reader) => reader.track_version(manifest),
        }
    }

    fn manifest_path(&self, exercise_name: &str) -> (path: Vec<String>) {
        match self {
            VersionReader::Rust(reader) => reader.manifest_path(exercise_name),
            VersionReader::Haskell(reader) => reader.manifest_path(exercise_name),
        }
    }

    fn get_track_version(&self, manifest: &Result<String, String>) -> (r: Result<
        String,
        AuditError,
    >) {
        match self {
            VersionReader::Rust(reader) => reader.get_track_version(manifest),
            VersionReader::Haskell(reader) => reader.get_track_version(manifest),
        }
    }
}

/// The reader registered under a language name in lower case.
pub open spec fn registered_reader(name: Seq<char>) -> Option<VersionReader> {
    if name == "rust"@ {
        Some(VersionReader::Rust(RustVersionReader))
    } else if name == "haskell"@ {
        Some(VersionReader::Haskell(HaskellVersionReader))
    } else {
        None
    }
}

/// Looks a reader up by a language name that is already in lower case.
pub fn registered_version_reader(name: &str) -> (reader: Option<VersionReader>)
    ensures
        reader == registered_reader(name@),
{
    let name = name.to_owned();
    if name == String::from_str("rust") {
        Some(VersionReader::Rust(RustVersionReader))
    } else if name == String::from_str("haskell") {
        Some(VersionReader::Haskell(HaskellVersionReader))
    } else {
        None
    }
}

/// Finds the reader for a track's declared language, whatever the case of its letters.
/// `None` means that no reader is registered for the language, which is no failure.
pub fn get_version_reader(track_name: &str) -> (reader: Option<VersionReader>)
    ensures
        reader == registered_reader(lowercase(track_name@)),
{
    let name = to_lowercase(track_name);
    registered_version_reader(name.as_str())
}

} // verus!
