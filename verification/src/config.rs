//! The track configuration: the declared language and the declared exercises.

use crate::document::Document;
use crate::errors::{AuditError, ErrorKind, ErrorView};
use crate::json_value::{
    json_document, json_documents, json_flag, json_items, json_member, json_text,
};
use vstd::prelude::*;
use vstd::string::*;

verus! {

/// Said of a configuration without a `language` string.
pub const NO_LANGUAGE: &'static str = "the track configuration declares no language";

/// Said of a configuration without an `exercises` array.
pub const NO_EXERCISES: &'static str = "the track configuration declares no list of exercises";

/// Said of a declared exercise without a `slug` string, or with a `deprecated` entry that is
/// no boolean.
pub const BAD_EXERCISE: &'static str =
    "a declared exercise lacks a slug or has a deprecated mark that is no boolean";

/// One exercise that a track declares. A track is taken to declare each slug once; nothing
/// here enforces it.
#[derive(Clone, Debug, PartialEq, Eq)]
pub struct ExerciseDeclaration {
    /// The identifier that the exercise has in the specification and in every track.
    pub slug: String,
    /// Whether the track has retired the exercise.
    pub deprecated: bool,
}

/// The mathematical value of an [`ExerciseDeclaration`].
pub struct ExerciseDeclarationView {
    pub slug: Seq<char>,
    pub deprecated: bool,
}

impl View for ExerciseDeclaration {
    type V = ExerciseDeclarationView;

    open spec fn view(&self) -> ExerciseDeclarationView {
        ExerciseDeclarationView { slug: self.slug@, deprecated: self.deprecated }
    }
}

/// What a track declares of itself.
#[derive(Clone, Debug, PartialEq, Eq)]
pub struct TrackConfig {
    /// The name of the track's language, as the track writes it.
    pub language: String,
    /// The declared exercises, in the order of the configuration.
    pub exercises: Vec<ExerciseDeclaration>,
}

/// The mathematical value of a [`TrackConfig`].
pub struct TrackConfigView {
    pub language: Seq<char>,
    pub exercises: Seq<ExerciseDeclarationView>,
}

/// The values of a sequence of declarations, one for one.
pub open spec fn declarations(exercises: Seq<ExerciseDeclaration>) -> Seq<
    ExerciseDeclarationView,
> {
    exercises.map_values(|exercise: ExerciseDeclaration| exercise@)
}

impl View for TrackConfig {
    type V = TrackConfigView;

    open spec fn view(&self) -> TrackConfigView {
        TrackConfigView { language: self.language@, exercises: declarations(self.exercises@) }
    }
}

/// The exercise that an entry of the `exercises` array declares: its `slug` string, and its
/// `deprecated` boolean, which is `false` where the entry has none.
pub open spec fn declared_exercise(entry: Document) -> Option<ExerciseDeclarationView> {
    match entry.text_member("slug"@) {
        None => None,
        Some(slug) => match entry.member("deprecated"@) {
            None => Some(ExerciseDeclarationView { slug, deprecated: false }),
            Some(mark) => match mark.flag() {
                Some(deprecated) => Some(ExerciseDeclarationView { slug, deprecated }),
                None => None,
            },
        },
    }
}

/// The exercises that the entries declare, where each of them declares one.
pub open spec fn declared_exercises(entries: Seq<Document>) -> Option<
    Seq<ExerciseDeclarationView>,
> {
    if forall|i: int| 0 <= i < entries.len() ==> (#[trigger] declared_exercise(entries[i])) is Some {
        Some(entries.map_values(|entry: Document| declared_exercise(entry)->0))
    } else {
        None
    }
}

/// The configuration that a document declares, or what the document lacks.
pub open spec fn declared_config(document: Document) -> Result<TrackConfigView, Seq<char>> {
    match document.text_member("language"@) {
        None => Err(NO_LANGUAGE@),
        Some(language) => match document.member("exercises"@) {
            Some(Document::List(entries)) => match declared_exercises(entries) {
                Some(exercises) => Ok(TrackConfigView { language, exercises }),
                None => Err(BAD_EXERCISE@),
            },
            _ => Err(NO_EXERCISES@),
        },
    }
}

/// The value of the outcome of building a configuration.
pub open spec fn config_outcome(r: Result<TrackConfig, AuditError>) -> Result<
    TrackConfigView,
    ErrorView,
> {
    match r {
        Ok(config) => Ok(config@),
        Err(error) => Err(error@),
    }
}

/// A failure to make a configuration of a document, for the given cause.
pub open spec fn config_parse_error(cause: Seq<char>) -> ErrorView {
    ErrorView { kind: ErrorKind::ConfigParseError, cause }
}

impl ExerciseDeclaration {
    /// Reads one entry of the `exercises` array.
    pub fn from_json(entry: &serde_json::Value) -> (r: Option<ExerciseDeclaration>)
        ensures
            match r {
                Some(exercise) => declared_exercise(json_document(*entry)) == Some(exercise@),
                None => declared_exercise(json_document(*entry)) is None,
            },
    {
        let slug = match json_member(entry, "slug") {
            Some(value) => match json_text(value) {
                Some(text) => text.to_owned(),
                None => { return None; },
            },
            None => { return None; },
        };
        match json_member(entry, "deprecated") {
            None => Some(ExerciseDeclaration { slug, deprecated: false }),
            Some(mark) => match json_flag(mark) {
                Some(deprecated) => Some(ExerciseDeclaration { slug, deprecated }),
                None => None,
            },
        }
    }
}

impl TrackConfig {
    /// Reads the configuration that a JSON value declares.
    ///
    /// Fails with `ConfigParseError` where the value has no `language` string, no `exercises`
    /// array, or an entry in that array that declares no exercise.
    pub fn from_json(value: &serde_json::Value) -> (r: Result<TrackConfig, AuditError>)
        ensures
            config_outcome(r) == match declared_config(json_document(*value)) {
                Ok(config) => Ok::<TrackConfigView, ErrorView>(config),
                Err(cause) => Err::<TrackConfigView, ErrorView>(config_parse_error(cause)),
            },
    {
        let language = match json_member(value, "language") {
            Some(entry) => match json_text(entry) {
                Some(text) => text.to_owned(),
                None => {
                    return Err(
                        AuditError::new(ErrorKind::ConfigParseError, String::from_str(NO_LANGUAGE)),
                    );
                },
            },
            None => {
                return Err(
                    AuditError::new(ErrorKind::ConfigParseError, String::from_str(NO_LANGUAGE)),
                );
            },
        };
        let entries = match json_member(value, "exercises") {
            Some(list) => match json_items(list) {
                Some(entries) => entries,
                None => {
                    return Err(
                        AuditError::new(ErrorKind::ConfigParseError, String::from_str(NO_EXERCISES)),
                    );
                },
            },
            None => {
                return Err(
                    AuditError::new(ErrorKind::ConfigParseError, String::from_str(NO_EXERCISES)),
                );
            },
        };
        let ghost documents = json_documents(entries@);
        let mut exercises: Vec<ExerciseDeclaration> = Vec::new();
        let mut i: usize = 0;
        while i < entries.len()
            invariant
                i <= entries.len(),
                documents == json_documents(entries@),
                json_document(*value).text_member("language"@) == Some(language@),
                json_document(*value).member("exercises"@) == Some(Document::List(documents)),
                exercises.len() == i,
                forall|j: int|
                    0 <= j < i ==> declared_exercise(documents[j]) == Some(
                        #[trigger] exercises[j]@,
                    ),
            decreases entries.len() - i,
        {
            match ExerciseDeclaration::from_json(&entries[i]) {
                Some(exercise) => {
                    exercises.push(exercise);
                },
                None => {
                    assert(declared_exercise(documents[i as int]) is None);
                    return Err(
                        AuditError::new(ErrorKind::ConfigParseError, String::from_str(BAD_EXERCISE)),
                    );
                },
            }
            i = i + 1;
        }
        let config = TrackConfig { language, exercises };
        proof {
            assert forall|j: int| 0 <= j < documents.len() implies (#[trigger] declared_exercise(
                documents[j],
            )) is Some by {
                assert(declared_exercise(documents[j]) == Some(config.exercises[j]@));
            }
            assert(config@.exercises =~= declared_exercises(documents)->0);
        }
        Ok(config)
    }
}

} // verus!
