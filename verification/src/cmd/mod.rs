//! The two audits that the tool runs.

pub mod missing;
pub mod outdated;

use crate::canonical::set_outcome;
use crate::config::TrackConfig;
use crate::errors::AuditError;
use crate::exercise_set::ExerciseSet;
use vstd::prelude::*;

verus! {

/// An audit.
#[derive(Clone, Copy, Debug, PartialEq, Eq, Structural)]
pub enum Cmd {
    /// Report the exercises that the specification has and the track lacks.
    Missing,
    /// Report the implemented exercises whose version is not the canonical one.
    Outdated,
}

/// Runs an audit on what was gathered for it, and writes its report.
///
/// `existing` is the outcome of collecting the exercises of the specification, which the
/// audit of missing exercises reads. `sources` holds what was read for each audited exercise,
/// which the audit of outdated exercises reads. Each audit leaves the other's input alone.
pub fn run_command(
    command: &Cmd,
    config: &TrackConfig,
    existing: &Result<ExerciseSet, AuditError>,
    sources: &Vec<outdated::ExerciseSources>,
) -> (report: String)
    ensures
        report@ == match *command {
            Cmd::Missing => missing::missing_output(config@, set_outcome(*existing)),
            Cmd::Outdated => outdated::outdated_report(
                config@,
                outdated::sources_view(sources@),
            ).text(),
        },
{
    match command {
        Cmd::Missing => missing::report_missing_exercises(config, existing),
        Cmd::Outdated => outdated::list_outdated_exercises(config, sources),
    }
}

} // verus!
