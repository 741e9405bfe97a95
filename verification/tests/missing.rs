use xtodo::cmd::missing::{
    get_implemented_exercises, get_missing_exercises, list_missing_exercises, number_lines,
    report_missing_exercises,
};
use xtodo::errors::{AuditError, ErrorKind};
use xtodo::cmd::outdated::ExerciseSources;
use xtodo::cmd::{run_command, Cmd};
use xtodo::config::{ExerciseDeclaration, TrackConfig};
use xtodo::exercise_set::ExerciseSet;

fn names(list: &[&str]) -> Vec<String> {
    list.iter().map(|name| name.to_string()).collect()
}

fn track(language: &str, exercises: &[(&str, bool)]) -> TrackConfig {
    TrackConfig {
        language: language.to_string(),
        exercises: exercises
            .iter()
            .map(|(slug, deprecated)| ExerciseDeclaration { slug: slug.to_string(), deprecated: *deprecated })
            .collect(),
    }
}

fn set(list: &[&str]) -> ExerciseSet {
    ExerciseSet::from_names(&names(list))
}

#[test]
fn a_new_set_is_empty() {
    let empty = ExerciseSet::new();
    assert_eq!(empty.len(), 0);
    assert!(!empty.contains("leap"));
    assert!(empty.to_vec().is_empty());
}

#[test]
fn a_set_holds_each_slug_once() {
    let mut slugs = ExerciseSet::new();
    assert!(slugs.insert("leap"));
    assert!(slugs.insert("acronym"));
    assert!(!slugs.insert("leap"));
    assert_eq!(slugs.len(), 2);
    assert!(slugs.contains("leap"));
    assert!(slugs.contains("acronym"));
    assert!(!slugs.contains("Leap"));
    assert_eq!(slugs.to_vec(), names(&["leap", "acronym"]));
}

#[test]
fn a_set_of_names_keeps_first_occurrences() {
    let slugs = set(&["b", "a", "b", "c", "a"]);
    assert_eq!(slugs.to_vec(), names(&["b", "a", "c"]));
    assert_eq!(slugs.len(), 3);
}

#[test]
fn difference_keeps_what_the_other_set_lacks() {
    let existing = set(&["two-fer", "leap", "acronym", "anagram"]);
    assert_eq!(existing.difference(&set(&["leap", "two-fer"])), names(&["acronym", "anagram"]));
    assert_eq!(existing.difference(&ExerciseSet::new()), names(&["two-fer", "leap", "acronym", "anagram"]));
    assert!(existing.difference(&existing).is_empty());
    assert!(ExerciseSet::new().difference(&existing).is_empty());
}

#[test]
fn implemented_exercises_are_all_the_declared_ones() {
    let config = track("rust", &[("two-fer", false), ("leap", true), ("acronym", false)]);
    let implemented = get_implemented_exercises(&config);
    assert_eq!(implemented.to_vec(), names(&["two-fer", "leap", "acronym"]));
    assert!(implemented.contains("leap"));
}

#[test]
fn missing_exercises_are_those_that_the_track_does_not_declare() {
    let config = track("rust", &[("two-fer", false), ("leap", false)]);
    let existing = set(&["two-fer", "leap", "acronym"]);
    assert_eq!(get_missing_exercises(&config, &existing), names(&["acronym"]));
}

#[test]
fn missing_report_lists_exactly_the_missing_exercise() {
    let config = track("rust", &[("two-fer", false), ("leap", false)]);
    let existing = set(&["two-fer", "leap", "acronym"]);
    assert_eq!(list_missing_exercises(&config, &existing), "Unimplemented exercises for the rust track:\n1) acronym");
}

#[test]
fn a_deprecated_exercise_is_not_missing() {
    let existing = set(&["two-fer", "leap", "acronym"]);
    let kept = track("rust", &[("two-fer", false), ("leap", false)]);
    let retired = track("rust", &[("two-fer", true), ("leap", true)]);
    assert_eq!(get_missing_exercises(&retired, &existing), names(&["acronym"]));
    assert_eq!(get_missing_exercises(&retired, &existing), get_missing_exercises(&kept, &existing));
    assert_eq!(list_missing_exercises(&retired, &existing), list_missing_exercises(&kept, &existing));
}

#[test]
fn an_exercise_that_only_the_track_has_is_not_missing() {
    let config = track("rust", &[("two-fer", false), ("custom", false)]);
    assert_eq!(get_missing_exercises(&config, &set(&["two-fer", "leap"])), names(&["leap"]));
}

#[test]
fn missing_report_of_a_complete_track_has_only_a_header() {
    let config = track("Haskell", &[("leap", false)]);
    assert_eq!(list_missing_exercises(&config, &set(&["leap"])), "Unimplemented exercises for the Haskell track:\n");
    assert_eq!(
        list_missing_exercises(&config, &ExerciseSet::new()),
        "Unimplemented exercises for the Haskell track:\n"
    );
}

#[test]
fn missing_report_numbers_the_exercises_from_one() {
    let config = track("rust", &[]);
    let existing = set(&["a", "b", "c", "d", "e", "f", "g", "h", "i", "j", "k"]);
    let report = list_missing_exercises(&config, &existing);
    assert_eq!(
        report,
        "Unimplemented exercises for the rust track:\n1) a\n2) b\n3) c\n4) d\n5) e\n6) f\n7) g\n8) h\n9) i\n10) j\n11) k"
    );
}

#[test]
fn numbered_lines_are_what_formatting_gives() {
    let list = names(&["acronym", "", "two-fer"]);
    let expected: Vec<String> =
        list.iter().enumerate().map(|(index, name)| format!("{}) {}", index + 1, name)).collect();
    assert_eq!(number_lines(&list), expected);
    assert!(number_lines(&Vec::new()).is_empty());
}

#[test]
fn missing_audit_gives_the_same_report_when_run_again() {
    let config = track("rust", &[("two-fer", false), ("leap", true)]);
    let existing = set(&["two-fer", "leap", "acronym", "anagram"]);
    assert_eq!(list_missing_exercises(&config, &existing), list_missing_exercises(&config, &existing));
}

#[test]
fn missing_exercises_are_the_same_set_in_any_order_of_the_listing() {
    let config = track("rust", &[("two-fer", false), ("leap", true)]);
    let mut one = get_missing_exercises(&config, &set(&["two-fer", "leap", "acronym", "anagram"]));
    let mut other = get_missing_exercises(&config, &set(&["anagram", "leap", "two-fer", "acronym"]));
    assert_eq!(one, names(&["acronym", "anagram"]));
    assert_eq!(other, names(&["anagram", "acronym"]));
    one.sort();
    other.sort();
    assert_eq!(one, other);
}

#[test]
fn run_command_runs_the_missing_audit() {
    let config = track("rust", &[("two-fer", false), ("leap", false)]);
    let existing = set(&["two-fer", "leap", "acronym"]);
    let untouched = vec![ExerciseSources { track_file: Err("unread".to_string()), canonical_data: Err("unread".to_string()) }];
    assert_eq!(
        run_command(&Cmd::Missing, &config, &Ok(existing), &untouched),
        "Unimplemented exercises for the rust track:\n1) acronym"
    );
}

#[test]
fn a_specification_that_could_not_be_listed_gives_a_warning() {
    let config = track("rust", &[("two-fer", false)]);
    let failed = Err(AuditError { kind: ErrorKind::SpecSourceUnavailable, cause: "connection refused".to_string() });
    assert_eq!(
        report_missing_exercises(&config, &failed),
        "Could not list the exercises of the specification: connection refused"
    );
    assert_eq!(
        run_command(&Cmd::Missing, &config, &failed, &Vec::new()),
        "Could not list the exercises of the specification: connection refused"
    );
    assert_eq!(
        report_missing_exercises(&config, &Ok(set(&["two-fer", "leap"]))),
        list_missing_exercises(&config, &set(&["two-fer", "leap"]))
    );
}
