use xtodo::canonical::{
    canonical_version_in, get_canonical_version, get_existing_exercises, listed_exercise_names,
    CanonicalListing, Location, SpecSource, CANONICAL_DATA, NO_CANONICAL_VERSION, NO_LISTING,
    UNNAMED_ENTRY,
};
use xtodo::errors::{AuditError, ErrorKind};

fn names(list: &[&str]) -> Vec<String> {
    list.iter().map(|name| name.to_string()).collect()
}

fn response(body: &str) -> Result<CanonicalListing, String> {
    Ok(CanonicalListing::Response(body.to_string()))
}

fn format_error(cause: &str) -> AuditError {
    AuditError { kind: ErrorKind::SpecFormatError, cause: cause.to_string() }
}

const LISTING: &str = r#"[
    {"name": "acronym", "path": "exercises/acronym", "type": "dir"},
    {"name": "leap", "path": "exercises/leap", "type": "dir"},
    {"name": "two-fer", "path": "exercises/two-fer", "type": "dir"}
]"#;

#[test]
fn the_source_is_local_where_a_directory_is_given() {
    assert_eq!(SpecSource::new(Some("/specs".to_string())), SpecSource::Local("/specs".to_string()));
    assert_eq!(SpecSource::new(None), SpecSource::Remote);
}

#[test]
fn the_local_listing_is_the_exercises_directory() {
    let source = SpecSource::new(Some("/specs".to_string()));
    assert_eq!(source.listing_location(), Location::File { base: "/specs".to_string(), path: names(&["exercises"]) });
}

#[test]
fn the_remote_listing_is_the_contents_address() {
    assert_eq!(
        SpecSource::Remote.listing_location(),
        Location::Url("https://api.github.com/repos/exercism/problem-specifications/contents/exercises/".to_string())
    );
}

#[test]
fn local_canonical_data_lies_in_the_directory_of_the_exercise() {
    let source = SpecSource::Local("../problem-specifications".to_string());
    assert_eq!(
        source.canonical_data_location("leap"),
        Location::File {
            base: "../problem-specifications".to_string(),
            path: names(&["exercises", "leap", "canonical-data.json"]),
        }
    );
    assert_eq!(CANONICAL_DATA, "canonical-data.json");
}

#[test]
fn remote_canonical_data_is_fetched_by_slug() {
    assert_eq!(
        SpecSource::Remote.canonical_data_location("leap"),
        Location::Url(
            "https://raw.githubusercontent.com/exercism/problem-specifications/master/exercises/leap/canonical-data.json"
                .to_string()
        )
    );
    assert_eq!(
        SpecSource::Remote.canonical_data_location("two-fer"),
        Location::Url(
            "https://raw.githubusercontent.com/exercism/problem-specifications/master/exercises/two-fer/canonical-data.json"
                .to_string()
        )
    );
}

#[test]
fn existing_exercises_of_a_directory_are_its_names() {
    let listing = Ok(CanonicalListing::Directory(names(&["leap", "acronym", "two-fer"])));
    let existing = get_existing_exercises(&listing).unwrap();
    assert_eq!(existing.to_vec(), names(&["leap", "acronym", "two-fer"]));
    assert_eq!(existing.len(), 3);
    assert!(existing.contains("acronym"));
    assert!(!existing.contains("anagram"));
}

#[test]
fn existing_exercises_of_a_response_are_the_names_of_its_entries() {
    let existing = get_existing_exercises(&response(LISTING)).unwrap();
    assert_eq!(existing.to_vec(), names(&["acronym", "leap", "two-fer"]));
}

#[test]
fn existing_exercises_hold_each_name_once() {
    let listing = Ok(CanonicalListing::Directory(names(&["leap", "acronym", "leap", "leap"])));
    assert_eq!(get_existing_exercises(&listing).unwrap().to_vec(), names(&["leap", "acronym"]));
    let twice = response(r#"[{"name": "leap"}, {"name": "leap"}]"#);
    assert_eq!(get_existing_exercises(&twice).unwrap().to_vec(), names(&["leap"]));
}

#[test]
fn existing_exercises_may_be_none() {
    assert_eq!(get_existing_exercises(&response("[]")).unwrap().len(), 0);
    assert_eq!(get_existing_exercises(&Ok(CanonicalListing::Directory(Vec::new()))).unwrap().len(), 0);
}

#[test]
fn existing_exercises_fail_where_the_source_was_not_reached() {
    let error = get_existing_exercises(&Err("connection refused".to_string())).unwrap_err();
    assert_eq!(error, AuditError { kind: ErrorKind::SpecSourceUnavailable, cause: "connection refused".to_string() });
    assert!(!error.is_fatal());
}

#[test]
fn existing_exercises_fail_where_the_response_is_no_json() {
    let body = "<html>rate limit exceeded</html>";
    let complaint = serde_json::from_str::<serde_json::Value>(body).unwrap_err().to_string();
    assert_eq!(get_existing_exercises(&response(body)).unwrap_err(), format_error(&complaint));
}

#[test]
fn existing_exercises_fail_where_the_response_is_no_array() {
    let body = r#"{"message": "API rate limit exceeded"}"#;
    assert_eq!(get_existing_exercises(&response(body)).unwrap_err(), format_error(NO_LISTING));
    assert_eq!(get_existing_exercises(&response("null")).unwrap_err(), format_error(NO_LISTING));
}

#[test]
fn existing_exercises_fail_where_an_entry_has_no_name() {
    for body in [
        r#"[{"name": "leap"}, {"path": "exercises/acronym"}]"#,
        r#"[{"name": 3}]"#,
        r#"["leap"]"#,
        r#"[{"name": null}]"#,
    ] {
        assert_eq!(get_existing_exercises(&response(body)).unwrap_err(), format_error(UNNAMED_ENTRY));
    }
}

#[test]
fn exercise_names_are_read_from_a_parsed_response() {
    let parsed: serde_json::Value = serde_json::from_str(LISTING).unwrap();
    assert_eq!(listed_exercise_names(&parsed), Ok(names(&["acronym", "leap", "two-fer"])));
    assert_eq!(listed_exercise_names(&parsed[0]), Err(format_error(NO_LISTING)));
}

#[test]
fn canonical_version_is_the_version_of_the_document() {
    let data = r#"{"exercise": "leap", "version": "1.3.0", "cases": []}"#;
    assert_eq!(get_canonical_version(&Ok(data.to_string())), Ok("1.3.0".to_string()));
    assert_eq!(get_canonical_version(&Ok(r#"{"version": ""}"#.to_string())), Ok(String::new()));
}

#[test]
fn canonical_version_fails_where_the_document_was_not_fetched() {
    let error = get_canonical_version(&Err("network is unreachable".to_string())).unwrap_err();
    assert_eq!(
        error,
        AuditError { kind: ErrorKind::SpecSourceUnavailable, cause: "network is unreachable".to_string() }
    );
}

#[test]
fn canonical_version_fails_where_the_document_is_no_json() {
    let body = "404: Not Found";
    let complaint = serde_json::from_str::<serde_json::Value>(body).unwrap_err().to_string();
    assert_eq!(get_canonical_version(&Ok(body.to_string())).unwrap_err(), format_error(&complaint));
}

#[test]
fn canonical_version_fails_where_the_document_states_none() {
    for body in [r#"{"exercise": "leap"}"#, r#"{"version": 1.3}"#, r#"["1.3.0"]"#, r#""1.3.0""#] {
        assert_eq!(get_canonical_version(&Ok(body.to_string())).unwrap_err(), format_error(NO_CANONICAL_VERSION));
    }
}

#[test]
fn canonical_version_is_found_in_a_parsed_document() {
    let parsed: serde_json::Value = serde_json::from_str(r#"{"version": "2.0.1"}"#).unwrap();
    assert_eq!(canonical_version_in(&parsed), Ok("2.0.1".to_string()));
    assert_eq!(canonical_version_in(&serde_json::Value::Null), Err(format_error(NO_CANONICAL_VERSION)));
}

#[test]
fn canonical_data_that_is_nested_too_deeply_is_a_format_failure() {
    let deep = format!("{}{}", "[".repeat(1000), "]".repeat(1000));
    let error = get_canonical_version(&Ok(deep.clone())).unwrap_err();
    assert_eq!(error.kind, ErrorKind::SpecFormatError);
    assert_eq!(get_existing_exercises(&response(&deep)).unwrap_err().kind, ErrorKind::SpecFormatError);
}
