//! The canonical source: where the specification is found, which exercises it lists, and
//! which version it gives to each.

use crate::document::Document;
use crate::errors::{fetched, outcome, AuditError, ErrorKind, ErrorView};
use crate::exercise_set::{first_occurrences, ExerciseSet};
use crate::json_value::{
    json_document, json_documents, json_error_message, json_items, json_member, json_parse,
    json_text, parse_json,
};
use crate::text::texts;
use crate::version::{exercise_file, manifest_location, EXERCISES_DIR};
use vstd::prelude::*;
use vstd::string::*;

verus! {

/// The address that lists the exercises of the online specification.
pub const LISTING_URL: &'static str =
    "https://api.github.com/repos/exercism/problem-specifications/contents/exercises/";

/// The address below which the online specification keeps one directory per exercise.
pub const EXERCISES_URL: &'static str =
    "https://raw.githubusercontent.com/exercism/problem-specifications/master/exercises/";

/// The canonical metadata document of an exercise.
pub const CANONICAL_DATA: &'static str = "canonical-data.json";

/// Said of a listing that is no array.
pub const NO_LISTING: &'static str = "the listing of the exercises is no array";

/// Said of a listing with an entry that has no `name` string.
pub const UNNAMED_ENTRY: &'static str = "an entry of the listing of the exercises has no name";

/// Said of a canonical document without a `version` string.
pub const NO_CANONICAL_VERSION: &'static str = "the canonical data holds no version string";

/// Where the specification is read from.
#[derive(Clone, Debug, PartialEq, Eq)]
pub enum SpecSource {
    /// A copy of the specification in a local directory.
    Local(String),
    /// The online specification.
    Remote,
}

/// A place to read: a file below a directory, or an address.
#[derive(Clone, Debug, PartialEq, Eq)]
pub enum Location {
    /// The file or directory reached from `base` through the components of `path`.
    File { base: String, path: Vec<String> },
    /// The document at an address.
    Url(String),
}

/// The mathematical value of a [`Location`].
pub enum LocationView {
    File { base: Seq<char>, path: Seq<Seq<char>> },
    Url(Seq<char>),
}

impl View for Location {
    type V = LocationView;

    open spec fn view(&self) -> LocationView {
        match self {
            Location::File { base, path } => LocationView::File {
                base: base@,
                path: texts(path@),
            },
            Location::Url(address) => LocationView::Url(address@),
        }
    }
}

/// The mathematical value of a [`SpecSource`].
pub enum SpecSourceView {
    Local(Seq<char>),
    Remote,
}

impl View for SpecSource {
    type V = SpecSourceView;

    open spec fn view(&self) -> SpecSourceView {
        match self {
            SpecSource::Local(directory) => SpecSourceView::Local(directory@),
            SpecSource::Remote => SpecSourceView::Remote,
        }
    }
}

impl SpecSourceView {
    /// Where the exercises of the specification are listed.
    pub open spec fn listing(self) -> LocationView {
        match self {
            SpecSourceView::Local(directory) => LocationView::File {
                base: directory,
                path: seq![EXERCISES_DIR@],
            },
            SpecSourceView::Remote => LocationView::Url(LISTING_URL@),
        }
    }

    /// Where the canonical metadata document of an exercise is.
    pub open spec fn canonical_data(self, exercise_name: Seq<char>) -> LocationView {
        match self {
            SpecSourceView::Local(directory) => LocationView::File {
                base: directory,
                path: manifest_location(exercise_name, CANONICAL_DATA@),
            },
            SpecSourceView::Remote => LocationView::Url(
                EXERCISES_URL@ + exercise_name + "/"@ + CANONICAL_DATA@,
            ),
        }
    }
}

impl SpecSource {
    /// Chooses the source: the local directory where one is given, else the online one.
    pub fn new(spec_dir: Option<String>) -> (source: SpecSource)
        ensures
            source@ == match spec_dir {
                Some(directory) => SpecSourceView::Local(directory@),
                None => SpecSourceView::Remote,
            },
    {
        match spec_dir {
            Some(directory) => SpecSource::Local(directory),
            None => SpecSource::Remote,
        }
    }

    /// Says where the exercises of the specification are listed.
    pub fn listing_location(&self) -> (location: Location)
        ensures
            location@ == self@.listing(),
    {
        match self {
            SpecSource::Local(directory) => {
                let mut path: Vec<String> = Vec::new();
                path.push(String::from_str(EXERCISES_DIR));
                assert(texts(path@) =~= seq![EXERCISES_DIR@]);
                Location::File { base: directory.clone(), path }
            },
            SpecSource::Remote => Location::Url(String::from_str(LISTING_URL)),
        }
    }

    /// Says where the canonical metadata document of an exercise is.
    pub fn canonical_data_location(&self, exercise_name: &str) -> (location: Location)
        ensures
            location@ == self@.canonical_data(exercise_name@),
    {
        match self {
            SpecSource::Local(directory) => Location::File {
                base: directory.clone(),
                path: exercise_file(exercise_name, CANONICAL_DATA),
            },
            SpecSource::Remote => {
                let mut address = String::from_str(EXERCISES_URL);
                address.append(exercise_name);
                address.append("/");
                address.append(CANONICAL_DATA);
                Location::Url(address)
            },
        }
    }
}

/// What listing the exercises of the specification gave.
#[derive(Clone, Debug, PartialEq, Eq)]
pub enum CanonicalListing {
    /// The names of the directories found below the local `exercises` directory.
    Directory(Vec<String>),
    /// The body of the answer of the online listing.
    Response(String),
}

/// The mathematical value of a [`CanonicalListing`].
pub enum CanonicalListingView {
    Directory(Seq<Seq<char>>),
    Response(Seq<char>),
}

impl View for CanonicalListing {
    type V = CanonicalListingView;

    open spec fn view(&self) -> CanonicalListingView {
        match self {
            CanonicalListing::Directory(names) => CanonicalListingView::Directory(texts(names@)),
            CanonicalListing::Response(body) => CanonicalListingView::Response(body@),
        }
    }
}

/// The value of the outcome of listing: what was listed, or the cause for which nothing was.
pub open spec fn listed(r: Result<CanonicalListing, String>) -> Result<
    CanonicalListingView,
    Seq<char>,
> {
    match r {
        Ok(listing) => Ok(listing@),
        Err(cause) => Err(cause@),
    }
}

/// The failure to read or reach the specification, for the given cause.
pub open spec fn spec_source_unavailable(cause: Seq<char>) -> ErrorView {
    ErrorView { kind: ErrorKind::SpecSourceUnavailable, cause }
}

/// The failure to make sense of what the specification source gave.
pub open spec fn spec_format_error(cause: Seq<char>) -> ErrorView {
    ErrorView { kind: ErrorKind::SpecFormatError, cause }
}

/// The `name` strings of the entries, where each of them has one.
pub open spec fn entry_names(entries: Seq<Document>) -> Option<Seq<Seq<char>>> {
    if forall|i: int|
        0 <= i < entries.len() ==> (#[trigger] entries[i].text_member("name"@)) is Some {
        Some(entries.map_values(|entry: Document| entry.text_member("name"@)->0))
    } else {
        None
    }
}

/// The names that the answer of the online listing gives: those of the entries of the array
/// that it is.
pub open spec fn response_names(response: Document) -> Result<Seq<Seq<char>>, ErrorView> {
    match response.items() {
        Some(entries) => match entry_names(entries) {
            Some(names) => Ok(names),
            None => Err(spec_format_error(UNNAMED_ENTRY@)),
        },
        None => Err(spec_format_error(NO_LISTING@)),
    }
}

/// The names of the exercises that the specification has, in the order of the listing, given
/// the outcome of listing them.
pub open spec fn existing_names(listing: Result<CanonicalListingView, Seq<char>>) -> Result<
    Seq<Seq<char>>,
    ErrorView,
> {
    match listing {
        Err(cause) => Err(spec_source_unavailable(cause)),
        Ok(CanonicalListingView::Directory(names)) => Ok(names),
        Ok(CanonicalListingView::Response(body)) => match json_parse(body) {
            Err(complaint) => Err(spec_format_error(complaint)),
            Ok(response) => response_names(response),
        },
    }
}

/// The version that a canonical metadata document states: its string `version`.
pub open spec fn canonical_data_version(data: Document) -> Result<Seq<char>, ErrorView> {
    match data.text_member("version"@) {
        Some(version) => Ok(version),
        None => Err(spec_format_error(NO_CANONICAL_VERSION@)),
    }
}

/// The canonical version of an exercise, given the outcome of fetching its canonical
/// metadata document.
pub open spec fn canonical_version(data: Result<Seq<char>, Seq<char>>) -> Result<
    Seq<char>,
    ErrorView,
> {
    match data {
        Err(cause) => Err(spec_source_unavailable(cause)),
        Ok(content) => match json_parse(content) {
            Err(complaint) => Err(spec_format_error(complaint)),
            Ok(document) => canonical_data_version(document),
        },
    }
}

/// The value of the outcome of reading names.
pub open spec fn names_outcome(r: Result<Vec<String>, AuditError>) -> Result<
    Seq<Seq<char>>,
    ErrorView,
> {
    match r {
        Ok(names) => Ok(texts(names@)),
        Err(error) => Err(error@),
    }
}

/// Reads the names of the exercises from the parsed answer of the online listing.
pub fn listed_exercise_names(response: &serde_json::Value) -> (r: Result<Vec<String>, AuditError>)
    ensures
        names_outcome(r) == response_names(json_document(*response)),
{
    let entries = match json_items(response) {
        Some(entries) => entries,
        None => {
            return Err(AuditError::new(ErrorKind::SpecFormatError, String::from_str(NO_LISTING)));
        },
    };
    let ghost documents = json_documents(entries@);
    let mut names: Vec<String> = Vec::new();
    let mut i: usize = 0;
    while i < entries.len()
        invariant
            i <= entries.len(),
            documents == json_documents(entries@),
            json_document(*response).items() == Some(documents),
            names.len() == i,
            forall|j: int|
                0 <= j < i ==> documents[j].text_member("name"@) == Some(#[trigger] names[j]@),
        decreases entries.len() - i,
    {
        let found = match json_member(&entries[i], "name") {
            Some(name) => json_text(name),
            None => None,
        };
        match found {
            Some(name) => {
                names.push(name.to_owned());
            },
            None => {
                assert(documents[i as int].text_member("name"@) is None);
                return Err(
                    AuditError::new(ErrorKind::SpecFormatError, String::from_str(UNNAMED_ENTRY)),
                );
            },
        }
        i = i + 1;
    }
    proof {
        assert forall|j: int| 0 <= j < documents.len() implies (#[trigger] documents[j].text_member(
            "name"@,
        )) is Some by {
            assert(documents[j].text_member("name"@) == Some(names[j]@));
        }
        assert(texts(names@) =~= entry_names(documents)->0);
    }
    Ok(names)
}

/// The value of the outcome of collecting a set of exercises: its list, or the failure.
pub open spec fn set_outcome(r: Result<ExerciseSet, AuditError>) -> Result<
    Seq<Seq<char>>,
    ErrorView,
> {
    match r {
        Ok(set) => Ok(set.list()),
        Err(error) => Err(error@),
    }
}

/// Collects the exercises that the specification has. `listing` is the outcome of listing
/// them: the local directory names or the body of the online answer, or the cause for which
/// the source could not be read.
///
/// Fails with `SpecSourceUnavailable` where the listing failed, and with `SpecFormatError`
/// where the online answer is no JSON array of entries that each have a `name` string.
pub fn get_existing_exercises(listing: &Result<CanonicalListing, String>) -> (r: Result<
    ExerciseSet,
    AuditError,
>)
    ensures
        set_outcome(r) == match existing_names(listed(*listing)) {
            Ok(names) => Ok::<Seq<Seq<char>>, ErrorView>(first_occurrences(names)),
            Err(error) => Err::<Seq<Seq<char>>, ErrorView>(error),
        },
{
    match listing {
        Err(cause) => Err(AuditError::new(ErrorKind::SpecSourceUnavailable, cause.clone())),
        Ok(CanonicalListing::Directory(names)) => Ok(ExerciseSet::from_names(names)),
        Ok(CanonicalListing::Response(body)) => match parse_json(body.as_str()) {
            Err(error) => Err(
                AuditError::new(ErrorKind::SpecFormatError, json_error_message(&error)),
            ),
            Ok(response) => match listed_exercise_names(&response) {
                Ok(names) => Ok(ExerciseSet::from_names(&names)),
                Err(error) => Err(error),
            },
        },
    }
}

/// Finds the version in the parsed canonical metadata document of an exercise.
pub fn canonical_version_in(data: &serde_json::Value) -> (r: Result<String, AuditError>)
    ensures
        outcome(r) == canonical_data_version(json_document(*data)),
{
    let found = match json_member(data, "version") {
        Some(version) => json_text(version),
        None => None,
    };
    match found {
        Some(version) => Ok(version.to_owned()),
        None => Err(
            AuditError::new(ErrorKind::SpecFormatError, String::from_str(NO_CANONICAL_VERSION)),
        ),
    }
}

/// Finds the canonical version of an exercise. `data` is the outcome of fetching its
/// canonical metadata document: the content, or the cause for which there is none.
///
/// Fails with `SpecSourceUnavailable` where the fetch failed, and with `SpecFormatError`
/// where the content is no JSON document with a `version` string.
pub fn get_canonical_version(data: &Result<String, String>) -> (r: Result<String, AuditError>)
    ensures
        outcome(r) == canonical_version(fetched(*data)),
{
    match data {
        Err(cause) => Err(AuditError::new(ErrorKind::SpecSourceUnavailable, cause.clone())),
        Ok(content) => match parse_json(content.as_str()) {
            Err(error) => Err(
                AuditError::new(ErrorKind::SpecFormatError, json_error_message(&error)),
            ),
            Ok(document) => canonical_version_in(&document),
        },
    }
}

} // verus!
