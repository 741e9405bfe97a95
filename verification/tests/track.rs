use xtodo::config::{ExerciseDeclaration, TrackConfig, BAD_EXERCISE, NO_EXERCISES, NO_LANGUAGE};
use xtodo::errors::{AuditError, ErrorKind};
use xtodo::{
    get_config_value, get_track_root, load_track_config, query_answer, CONFIG_FILE, NOT_UTF8,
};

fn content(text: &str) -> Result<String, String> {
    Ok(text.to_string())
}

fn declared(slug: &str, deprecated: bool) -> ExerciseDeclaration {
    ExerciseDeclaration { slug: slug.to_string(), deprecated }
}

#[test]
fn track_root_is_the_trimmed_answer() {
    assert_eq!(get_track_root(Ok(b"/home/me/rust\n".to_vec())), Ok("/home/me/rust".to_string()));
    assert_eq!(get_track_root(Ok(b"  C:/tracks/rust \r\n".to_vec())), Ok("C:/tracks/rust".to_string()));
    assert_eq!(get_track_root(Ok("/home/zoé/rust\n".as_bytes().to_vec())), Ok("/home/zoé/rust".to_string()));
}

#[test]
fn track_root_of_an_empty_answer_is_empty() {
    assert_eq!(get_track_root(Ok(Vec::new())), Ok(String::new()));
}

#[test]
fn track_root_fails_where_the_query_failed() {
    let error = get_track_root(Err("fatal: not a git repository".to_string())).unwrap_err();
    assert_eq!(error.kind, ErrorKind::VcsQueryError);
    assert_eq!(error.cause, "fatal: not a git repository");
    assert_eq!(error.message(), "fatal: not a git repository");
}

#[test]
fn track_root_fails_where_the_answer_is_no_text() {
    let error = get_track_root(Ok(vec![0x2f, 0xff, 0xfe])).unwrap_err();
    assert_eq!(error, AuditError { kind: ErrorKind::VcsQueryError, cause: NOT_UTF8.to_string() });
    let truncated = get_track_root(Ok(vec![0xe2, 0x82])).unwrap_err();
    assert_eq!(truncated.kind, ErrorKind::VcsQueryError);
}

#[test]
fn the_configuration_file_is_config_json() {
    assert_eq!(CONFIG_FILE, "config.json");
}

#[test]
fn config_value_is_the_parsed_document() {
    let text = r#"{"language": "Rust", "exercises": []}"#;
    let expected: serde_json::Value = serde_json::from_str(text).unwrap();
    assert_eq!(get_config_value(&content(text)), Ok(expected));
    assert_eq!(get_config_value(&content("[1, 2]")).unwrap()[1], serde_json::Value::from(2));
}

#[test]
fn config_value_fails_where_the_file_was_not_read() {
    let error = get_config_value(&Err("No such file or directory (os error 2)".to_string())).unwrap_err();
    assert_eq!(error.kind, ErrorKind::ConfigNotFound);
    assert_eq!(error.cause, "No such file or directory (os error 2)");
}

#[test]
fn config_value_fails_where_the_content_is_no_json() {
    let text = "{\"language\": ";
    let complaint = serde_json::from_str::<serde_json::Value>(text).unwrap_err().to_string();
    let error = get_config_value(&content(text)).unwrap_err();
    assert_eq!(error.kind, ErrorKind::ConfigParseError);
    assert_eq!(error.cause, complaint);
    assert!(!error.cause.is_empty());
    assert_ne!(error.cause, text);
}

#[test]
fn track_config_holds_the_language_and_the_exercises() {
    let text = r#"{
        "language": "Rust",
        "active": true,
        "exercises": [
            {"slug": "two-fer", "uuid": "1", "core": true, "topics": ["strings"]},
            {"slug": "leap", "deprecated": false},
            {"slug": "acronym", "deprecated": true}
        ]
    }"#;
    let config = load_track_config(&content(text)).unwrap();
    assert_eq!(config, TrackConfig {
        language: "Rust".to_string(),
        exercises: vec![declared("two-fer", false), declared("leap", false), declared("acronym", true)],
    });
}

#[test]
fn track_config_may_declare_no_exercise() {
    let config = load_track_config(&content(r#"{"language": "haskell", "exercises": []}"#)).unwrap();
    assert_eq!(config.language, "haskell");
    assert!(config.exercises.is_empty());
}

#[test]
fn track_config_fails_where_the_file_was_not_read() {
    let error = load_track_config(&Err("permission denied".to_string())).unwrap_err();
    assert_eq!(error, AuditError { kind: ErrorKind::ConfigNotFound, cause: "permission denied".to_string() });
}

#[test]
fn track_config_fails_where_the_content_is_no_json() {
    let complaint = serde_json::from_str::<serde_json::Value>("language: rust").unwrap_err().to_string();
    let error = load_track_config(&content("language: rust")).unwrap_err();
    assert_eq!(error, AuditError { kind: ErrorKind::ConfigParseError, cause: complaint });
}

#[test]
fn track_config_needs_a_language() {
    for text in [
        r#"{"exercises": []}"#,
        r#"{"language": 7, "exercises": []}"#,
        r#"{"language": null, "exercises": []}"#,
        r#"["language", "exercises"]"#,
        r#""rust""#,
    ] {
        let error = load_track_config(&content(text)).unwrap_err();
        assert_eq!(error, AuditError { kind: ErrorKind::ConfigParseError, cause: NO_LANGUAGE.to_string() });
    }
}

#[test]
fn track_config_needs_a_list_of_exercises() {
    for text in [
        r#"{"language": "rust"}"#,
        r#"{"language": "rust", "exercises": {"slug": "leap"}}"#,
        r#"{"language": "rust", "exercises": "leap"}"#,
    ] {
        let error = load_track_config(&content(text)).unwrap_err();
        assert_eq!(error, AuditError { kind: ErrorKind::ConfigParseError, cause: NO_EXERCISES.to_string() });
    }
}

#[test]
fn track_config_needs_a_slug_for_each_exercise() {
    for text in [
        r#"{"language": "rust", "exercises": [{"slug": "leap"}, {"uuid": "2"}]}"#,
        r#"{"language": "rust", "exercises": [{"slug": 3}]}"#,
        r#"{"language": "rust", "exercises": ["leap"]}"#,
        r#"{"language": "rust", "exercises": [{"slug": "leap", "deprecated": "yes"}]}"#,
        r#"{"language": "rust", "exercises": [{"slug": "leap", "deprecated": null}]}"#,
    ] {
        let error = load_track_config(&content(text)).unwrap_err();
        assert_eq!(error, AuditError { kind: ErrorKind::ConfigParseError, cause: BAD_EXERCISE.to_string() });
    }
}

#[test]
fn track_config_reports_the_language_before_the_exercises() {
    let error = load_track_config(&content(r#"{"exercises": [{"uuid": "2"}]}"#)).unwrap_err();
    assert_eq!(error.cause, NO_LANGUAGE);
}

#[test]
fn track_config_is_read_from_a_parsed_value() {
    let value: serde_json::Value =
        serde_json::from_str(r#"{"language": "rust", "exercises": [{"slug": "leap", "deprecated": true}]}"#).unwrap();
    let config = TrackConfig::from_json(&value).unwrap();
    assert_eq!(config.language, "rust");
    assert_eq!(config.exercises, vec![declared("leap", true)]);
    assert_eq!(ExerciseDeclaration::from_json(&value["exercises"][0]), Some(declared("leap", true)));
    assert_eq!(ExerciseDeclaration::from_json(&value), None);
}

#[test]
fn failures_of_the_track_itself_are_fatal() {
    for kind in [ErrorKind::VcsQueryError, ErrorKind::ConfigNotFound, ErrorKind::ConfigParseError] {
        assert!(kind.is_fatal());
        assert!(AuditError::new(kind, String::new()).is_fatal());
    }
}

#[test]
fn failures_of_one_exercise_are_not_fatal() {
    for kind in [
        ErrorKind::TrackFileMissing,
        ErrorKind::TrackFileParseError,
        ErrorKind::VersionFieldMissing,
        ErrorKind::SpecSourceUnavailable,
        ErrorKind::SpecFormatError,
    ] {
        assert!(!kind.is_fatal());
        assert!(!AuditError::new(kind, "cause".to_string()).is_fatal());
    }
}

#[test]
fn the_message_of_a_failure_is_its_cause() {
    let error = AuditError::new(ErrorKind::TrackFileMissing, "no such file".to_string());
    assert_eq!(error.kind, ErrorKind::TrackFileMissing);
    assert_eq!(error.message(), "no such file");
}

#[test]
fn a_query_that_succeeded_answers_what_it_wrote() {
    assert_eq!(
        query_answer(true, b"/home/me/rust\n".to_vec(), String::new()),
        Ok(b"/home/me/rust\n".to_vec())
    );
    assert_eq!(query_answer(true, Vec::new(), "warning: ignored\n".to_string()), Ok(Vec::new()));
}

#[test]
fn a_query_that_failed_has_no_answer() {
    let complaint = "fatal: not a git repository (or any of the parent directories): .git\n";
    assert_eq!(
        query_answer(false, Vec::new(), complaint.to_string()),
        Err("fatal: not a git repository (or any of the parent directories): .git".to_string())
    );
    assert_eq!(query_answer(false, b"/home/me/rust\n".to_vec(), String::new()), Err(String::new()));
}

#[test]
fn a_directory_that_is_not_under_version_control_has_no_track_root() {
    let complaint = "fatal: not a git repository (or any of the parent directories): .git\n";
    let error = get_track_root(query_answer(false, Vec::new(), complaint.to_string())).unwrap_err();
    assert_eq!(error.kind, ErrorKind::VcsQueryError);
    assert_eq!(error.cause, "fatal: not a git repository (or any of the parent directories): .git");
    assert!(error.is_fatal());
    assert_eq!(
        get_track_root(query_answer(true, b"/home/me/rust\n".to_vec(), String::new())),
        Ok("/home/me/rust".to_string())
    );
}
