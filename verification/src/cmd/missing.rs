//! The exercises that the specification has and the track does not implement.

use crate::canonical::set_outcome;
use crate::config::{ExerciseDeclarationView, TrackConfig, TrackConfigView};
use crate::errors::{AuditError, ErrorView};
use crate::exercise_set::{absent_from, first_occurrences, ExerciseSet};
use crate::text::{decimal, decimal_text, join, joined, texts};
use vstd::prelude::*;
use vstd::string::*;

verus! {

/// The slugs that a track declares, in the order of its configuration.
pub open spec fn slugs(config: TrackConfigView) -> Seq<Seq<char>> {
    config.exercises.map_values(|exercise: ExerciseDeclarationView| exercise.slug)
}

/// The exercises that a track implements: every declared one, deprecated or not.
pub open spec fn implemented(config: TrackConfigView) -> Set<Seq<char>> {
    slugs(config).to_set()
}

/// The existing exercises that the track does not implement, in the order of `existing`.
pub open spec fn missing(config: TrackConfigView, existing: Seq<Seq<char>>) -> Seq<Seq<char>> {
    existing.filter(absent_from(implemented(config)))
}

/// The line of the `index`-th exercise of a numbered list.
pub open spec fn numbered_line(index: nat, name: Seq<char>) -> Seq<char> {
    decimal(index) + ") "@ + name
}

/// The lines of a list of names that is numbered from 1.
pub open spec fn numbered(names: Seq<Seq<char>>) -> Seq<Seq<char>> {
    Seq::new(names.len(), |i: int| numbered_line((i + 1) as nat, names[i]))
}

/// The report on the exercises that a track lacks: a header that names the track's language,
/// then the missing exercises, numbered from 1, one per line.
pub open spec fn missing_report(config: TrackConfigView, existing: Seq<Seq<char>>) -> Seq<char> {
    "Unimplemented exercises for the "@ + config.language + " track:\n"@ + joined(
        numbered(missing(config, existing)),
        "\n"@,
    )
}

/// The warning about a specification whose exercises could not be listed.
pub open spec fn listing_warning(cause: Seq<char>) -> Seq<char> {
    "Could not list the exercises of the specification: "@ + cause
}

/// What the audit of missing exercises prints, given the outcome of listing the exercises of
/// the specification: the report, or the warning that they could not be listed.
pub open spec fn missing_output(
    config: TrackConfigView,
    existing: Result<Seq<Seq<char>>, ErrorView>,
) -> Seq<char> {
    match existing {
        Ok(list) => missing_report(config, list),
        Err(error) => listing_warning(error.cause),
    }
}

/// Collects the exercises that a track implements. Whether an exercise is deprecated plays
/// no part: a deprecated exercise is still there.
pub fn get_implemented_exercises(config: &TrackConfig) -> (set: ExerciseSet)
    ensures
        set@ == implemented(config@),
        set.list() == first_occurrences(slugs(config@)),
{
    let mut set = ExerciseSet::new();
    let mut i: usize = 0;
    while i < config.exercises.len()
        invariant
            i <= config.exercises.len(),
            set.list() == first_occurrences(slugs(config@).take(i as int)),
        decreases config.exercises.len() - i,
    {
        assert(slugs(config@).take(i + 1).drop_last() =~= slugs(config@).take(i as int));
        set.insert(config.exercises[i].slug.as_str());
        i = i + 1;
    }
    proof {
        assert(slugs(config@).take(i as int) =~= slugs(config@));
        crate::exercise_set::lemma_first_occurrences(slugs(config@));
    }
    set
}

/// Finds the existing exercises that the track does not implement, in the order of
/// `existing`.
pub fn get_missing_exercises(config: &TrackConfig, existing: &ExerciseSet) -> (names: Vec<String>)
    ensures
        texts(names@) == missing(config@, existing.list()),
{
    let implemented = get_implemented_exercises(config);
    existing.difference(&implemented)
}

/// Numbers the names from 1, one line each.
pub fn number_lines(names: &Vec<String>) -> (lines: Vec<String>)
    ensures
        texts(lines@) == numbered(texts(names@)),
{
    let mut lines: Vec<String> = Vec::new();
    let mut i: usize = 0;
    while i < names.len()
        invariant
            i <= names.len(),
            texts(lines@) == numbered(texts(names@)).take(i as int),
        decreases names.len() - i,
    {
        let mut line = decimal_text(i + 1);
        line.append(") ");
        line.append(names[i].as_str());
        let ghost before = texts(lines@);
        lines.push(line);
        assert(texts(lines@) =~= before.push(line@));
        i = i + 1;
    }
    lines
}

/// Writes the report on the exercises that the specification has and the track lacks.
/// The report of a track that lacks none has a header and nothing below it.
pub fn list_missing_exercises(config: &TrackConfig, existing: &ExerciseSet) -> (report: String)
    ensures
        report@ == missing_report(config@, existing.list()),
{
    let names = get_missing_exercises(config, existing);
    let lines = number_lines(&names);
    let body = join(&lines, "\n");
    let mut report = String::from_str("Unimplemented exercises for the ");
    report.append(config.language.as_str());
    report.append(" track:\n");
    report.append(body.as_str());
    report
}

/// Writes what the audit of missing exercises prints. `existing` is the outcome of collecting
/// the exercises of the specification. Where that failed there is nothing to compare with:
/// the failure is reported as a warning, and the run goes on to its end.
pub fn report_missing_exercises(
    config: &TrackConfig,
    existing: &Result<ExerciseSet, AuditError>,
) -> (text: String)
    ensures
        text@ == missing_output(config@, set_outcome(*existing)),
{
    match existing {
        Ok(set) => list_missing_exercises(config, set),
        Err(error) => {
            let mut text = String::from_str("Could not list the exercises of the specification: ");
            text.append(error.message().as_str());
            text
        },
    }
}

} // verus!
