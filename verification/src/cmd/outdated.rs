//! The implemented exercises whose version is not the canonical one.

use crate::canonical::{
    canonical_version, get_canonical_version, Location, LocationView, SpecSource, SpecSourceView,
};
use crate::config::{ExerciseDeclarationView, TrackConfig, TrackConfigView};
use crate::errors::{fetched, outcome, AuditError, ErrorView};
use crate::text::{
    decimal, decimal_text, join, joined, lowercase, pad_left, pad_right, padded_left,
    padded_right, texts,
};
use crate::version::{
    get_version_reader, manifest_location, registered_reader, GetTrackVersion, VersionReader,
};
use vstd::prelude::*;
use vstd::string::*;

verus! {

/// What is known of one audited exercise: its slug and its two versions. A version that
/// could not be determined is `None`, which is not the same as an empty version.
#[derive(Clone, Debug, PartialEq, Eq)]
pub struct ExerciseInfo {
    pub name: String,
    pub track_version: Option<String>,
    pub canonical_version: Option<String>,
}

/// The mathematical value of an [`ExerciseInfo`].
pub struct ExerciseInfoView {
    pub name: Seq<char>,
    pub track_version: Option<Seq<char>>,
    pub canonical_version: Option<Seq<char>>,
}

/// The text of a version, where there is one.
pub open spec fn version_text(version: Option<String>) -> Option<Seq<char>> {
    match version {
        Some(text) => Some(text@),
        None => None,
    }
}

impl View for ExerciseInfo {
    type V = ExerciseInfoView;

    open spec fn view(&self) -> ExerciseInfoView {
        ExerciseInfoView {
            name: self.name@,
            track_version: version_text(self.track_version),
            canonical_version: version_text(self.canonical_version),
        }
    }
}

/// The values of a sequence of records, one for one.
pub open spec fn records_view(records: Seq<ExerciseInfo>) -> Seq<ExerciseInfoView> {
    records.map_values(|record: ExerciseInfo| record@)
}

/// The record of an exercise of which nothing was looked up yet.
pub open spec fn pending(name: Seq<char>) -> ExerciseInfoView {
    ExerciseInfoView { name, track_version: None, canonical_version: None }
}

/// An exercise is outdated where both of its versions are known and they are not the same
/// text. The versions are not ordered: any difference counts.
pub open spec fn outdated(record: ExerciseInfoView) -> bool {
    &&& record.track_version is Some
    &&& record.canonical_version is Some
    &&& record.track_version->0 != record.canonical_version->0
}

impl ExerciseInfo {
    /// Makes the record of an exercise of which no version is known yet.
    pub fn new(name: &str) -> (record: ExerciseInfo)
        ensures
            record@ == pending(name@),
    {
        ExerciseInfo { name: name.to_owned(), track_version: None, canonical_version: None }
    }

    /// Tells whether the exercise is outdated.
    pub fn is_outdated(&self) -> (r: bool)
        ensures
            r == outdated(self@),
    {
        match &self.track_version {
            Some(track_version) => match &self.canonical_version {
                Some(canonical_version) => !(*track_version == *canonical_version),
                None => false,
            },
            None => false,
        }
    }
}

/// What was read for one audited exercise: the outcome of reading its metadata file in the
/// track, and the outcome of fetching its canonical metadata document. Each is the content,
/// or the cause for which there is none.
#[derive(Debug, PartialEq, Eq)]
pub struct ExerciseSources {
    pub track_file: Result<String, String>,
    pub canonical_data: Result<String, String>,
}

/// The mathematical value of an [`ExerciseSources`].
pub struct ExerciseSourcesView {
    pub track_file: Result<Seq<char>, Seq<char>>,
    pub canonical_data: Result<Seq<char>, Seq<char>>,
}

impl View for ExerciseSources {
    type V = ExerciseSourcesView;

    open spec fn view(&self) -> ExerciseSourcesView {
        ExerciseSourcesView {
            track_file: fetched(self.track_file),
            canonical_data: fetched(self.canonical_data),
        }
    }
}

/// The values of a sequence of sources, one for one.
pub open spec fn sources_view(sources: Seq<ExerciseSources>) -> Seq<ExerciseSourcesView> {
    sources.map_values(|one: ExerciseSources| one@)
}

/// The declared exercises that are not deprecated, in order.
pub open spec fn active(exercises: Seq<ExerciseDeclarationView>) -> Seq<ExerciseDeclarationView> {
    exercises.filter(|exercise: ExerciseDeclarationView| !exercise.deprecated)
}

/// The slugs of the exercises that are audited: the declared ones that are not deprecated.
pub open spec fn audited(config: TrackConfigView) -> Seq<Seq<char>> {
    active(config.exercises).map_values(|exercise: ExerciseDeclarationView| exercise.slug)
}

/// What is to be read for one audited exercise.
#[derive(Clone, Debug, PartialEq, Eq)]
pub struct Lookup {
    /// The slug of the exercise.
    pub name: String,
    /// The path of the exercise's metadata file below the track's root, one component each.
    pub track_file: Vec<String>,
    /// Where the canonical metadata document of the exercise is.
    pub canonical_data: Location,
}

/// The mathematical value of a [`Lookup`].
pub struct LookupView {
    pub name: Seq<char>,
    pub track_file: Seq<Seq<char>>,
    pub canonical_data: LocationView,
}

impl View for Lookup {
    type V = LookupView;

    open spec fn view(&self) -> LookupView {
        LookupView {
            name: self.name@,
            track_file: texts(self.track_file@),
            canonical_data: self.canonical_data@,
        }
    }
}

/// The values of a sequence of lookups, one for one.
pub open spec fn lookups_view(lookups: Seq<Lookup>) -> Seq<LookupView> {
    lookups.map_values(|lookup: Lookup| lookup@)
}

/// What is to be read for the exercise `name`: the metadata file that the reader's language
/// keeps for it, and its canonical metadata document at the source.
pub open spec fn lookup_of(
    reader: VersionReader,
    source: SpecSourceView,
    name: Seq<char>,
) -> LookupView {
    LookupView {
        name,
        track_file: manifest_location(name, reader.manifest_name()),
        canonical_data: source.canonical_data(name),
    }
}

/// What an audit with the given reader reads: nothing without a reader, else one lookup for
/// each audited exercise, in the order of [`audited`].
pub open spec fn plan(
    reader: Option<VersionReader>,
    config: TrackConfigView,
    source: SpecSourceView,
) -> Seq<LookupView> {
    match reader {
        None => seq![],
        Some(reader) => audited(config).map_values(
            |name: Seq<char>| lookup_of(reader, source, name),
        ),
    }
}

/// The version that a lookup gave, where it succeeded.
pub open spec fn known(lookup: Result<Seq<char>, ErrorView>) -> Option<Seq<char>> {
    match lookup {
        Ok(version) => Some(version),
        Err(_) => None,
    }
}

/// The record of an exercise after its two lookups. A lookup that failed leaves its version
/// unknown.
pub open spec fn resolved(
    name: Seq<char>,
    track: Result<Seq<char>, ErrorView>,
    canonical: Result<Seq<char>, ErrorView>,
) -> ExerciseInfoView {
    ExerciseInfoView { name, track_version: known(track), canonical_version: known(canonical) }
}

/// The record of an exercise whose versions are looked up in what was read for it.
pub open spec fn compared(
    reader: VersionReader,
    name: Seq<char>,
    sources: ExerciseSourcesView,
) -> ExerciseInfoView {
    resolved(
        name,
        reader.track_version(sources.track_file),
        canonical_version(sources.canonical_data),
    )
}

/// The warning about a track version that could not be found.
pub open spec fn track_warning(name: Seq<char>, cause: Seq<char>) -> Seq<char> {
    "Failed to get track version for the "@ + name + " exercise: "@ + cause
}

/// The warning about a canonical version that could not be found.
pub open spec fn canonical_warning(name: Seq<char>, cause: Seq<char>) -> Seq<char> {
    "Could not retrieve canonical-data for the "@ + name + " exercise: "@ + cause
}

/// The warnings that the two lookups of one exercise give: one for each that failed, the
/// track's first.
pub open spec fn lookup_warnings(
    name: Seq<char>,
    track: Result<Seq<char>, ErrorView>,
    canonical: Result<Seq<char>, ErrorView>,
) -> Seq<Seq<char>> {
    let of_track: Seq<Seq<char>> = match track {
        Err(error) => seq![track_warning(name, error.cause)],
        Ok(_) => seq![],
    };
    let of_canonical: Seq<Seq<char>> = match canonical {
        Err(error) => seq![canonical_warning(name, error.cause)],
        Ok(_) => seq![],
    };
    of_track + of_canonical
}

/// The warnings about an exercise whose versions are looked up in what was read for it.
pub open spec fn warnings(
    reader: VersionReader,
    name: Seq<char>,
    sources: ExerciseSourcesView,
) -> Seq<Seq<char>> {
    lookup_warnings(
        name,
        reader.track_version(sources.track_file),
        canonical_version(sources.canonical_data),
    )
}

/// The record of the `i`-th audited exercise. Its sources are the `i`-th ones; an exercise
/// for which none were read keeps both versions unknown.
pub open spec fn record_at(
    reader: VersionReader,
    names: Seq<Seq<char>>,
    sources: Seq<ExerciseSourcesView>,
    i: int,
) -> ExerciseInfoView {
    if i < sources.len() {
        compared(reader, names[i], sources[i])
    } else {
        pending(names[i])
    }
}

/// The records of the audited exercises, in order.
pub open spec fn records(
    reader: VersionReader,
    names: Seq<Seq<char>>,
    sources: Seq<ExerciseSourcesView>,
) -> Seq<ExerciseInfoView> {
    Seq::new(names.len(), |i: int| record_at(reader, names, sources, i))
}

/// The warnings of the `i`-th audited exercise.
pub open spec fn warnings_at(
    reader: VersionReader,
    names: Seq<Seq<char>>,
    sources: Seq<ExerciseSourcesView>,
    i: int,
) -> Seq<Seq<char>> {
    if i < sources.len() {
        warnings(reader, names[i], sources[i])
    } else {
        seq![]
    }
}

/// The warnings of the first `count` audited exercises, in the order of the exercises.
pub open spec fn warnings_before(
    reader: VersionReader,
    names: Seq<Seq<char>>,
    sources: Seq<ExerciseSourcesView>,
    count: nat,
) -> Seq<Seq<char>>
    decreases count,
{
    if count == 0 {
        seq![]
    } else {
        warnings_before(reader, names, sources, (count - 1) as nat) + warnings_at(
            reader,
            names,
            sources,
            count - 1,
        )
    }
}

/// The records that are outdated, in order.
pub open spec fn outdated_records(all: Seq<ExerciseInfoView>) -> Seq<ExerciseInfoView> {
    all.filter(|record: ExerciseInfoView| outdated(record))
}

/// How a version is shown in a row. The rows of an audit show known versions only.
pub open spec fn shown(version: Option<Seq<char>>) -> Seq<char> {
    match version {
        Some(text) => text,
        None => "unknown"@,
    }
}

/// The row of the `index`-th outdated exercise: the index in 2 columns, the slug in 25, and
/// each version in 6, or in as many as the text needs.
pub open spec fn row(index: nat, record: ExerciseInfoView) -> Seq<char> {
    padded_left(decimal(index), 2) + ") "@ + padded_right(record.name, 25) + " track version: "@
        + padded_right(shown(record.track_version), 6) + " canonical version: "@ + padded_right(
        shown(record.canonical_version),
        6,
    )
}

/// The rows of a list of outdated exercises, numbered from 1.
pub open spec fn rows(listed: Seq<ExerciseInfoView>) -> Seq<Seq<char>> {
    Seq::new(listed.len(), |i: int| row((i + 1) as nat, listed[i]))
}

/// The lines, each followed by a line feed.
pub open spec fn lines_text(lines: Seq<Seq<char>>) -> Seq<char>
    decreases lines.len(),
{
    if lines.len() == 0 {
        Seq::empty()
    } else {
        lines_text(lines.drop_last()) + lines.last() + "\n"@
    }
}

/// What the audit says of a track for whose language no version reader is registered.
pub open spec fn no_reader_message(language: Seq<char>) -> Seq<char> {
    "Reading the track exercise version is not implemented for the "@ + language
        + " track. Aborting."@
}

/// The table of the outdated exercises: an empty line, a header that names the track's
/// language, and one row for each outdated exercise.
pub open spec fn outdated_table(language: Seq<char>, listed: Seq<ExerciseInfoView>) -> Seq<char> {
    "\nOutdated exercises for the "@ + language + " track:\n"@ + joined(rows(listed), "\n"@)
}

/// What the audit of a track found.
#[derive(Clone, Debug, PartialEq, Eq)]
pub struct OutdatedReport {
    /// The track's declared language.
    pub language: String,
    /// Whether a version reader is registered for that language. Where none is, nothing was
    /// looked up.
    pub reader_found: bool,
    /// One warning for each lookup that failed.
    pub warnings: Vec<String>,
    /// The exercises that are outdated.
    pub outdated: Vec<ExerciseInfo>,
}

/// The mathematical value of an [`OutdatedReport`].
pub struct OutdatedReportView {
    pub language: Seq<char>,
    pub reader_found: bool,
    pub warnings: Seq<Seq<char>>,
    pub outdated: Seq<ExerciseInfoView>,
}

impl View for OutdatedReport {
    type V = OutdatedReportView;

    open spec fn view(&self) -> OutdatedReportView {
        OutdatedReportView {
            language: self.language@,
            reader_found: self.reader_found,
            warnings: texts(self.warnings@),
            outdated: records_view(self.outdated@),
        }
    }
}

impl OutdatedReportView {
    /// The text of the report: the warnings, one per line, then the table; or, where no
    /// reader was found, the message that says so.
    pub open spec fn text(self) -> Seq<char> {
        if self.reader_found {
            lines_text(self.warnings) + outdated_table(self.language, self.outdated)
        } else {
            no_reader_message(self.language)
        }
    }
}

/// What the audit finds with the given reader, or without one.
pub open spec fn audit(
    reader: Option<VersionReader>,
    config: TrackConfigView,
    sources: Seq<ExerciseSourcesView>,
) -> OutdatedReportView {
    match reader {
        None => OutdatedReportView {
            language: config.language,
            reader_found: false,
            warnings: seq![],
            outdated: seq![],
        },
        Some(reader) => OutdatedReportView {
            language: config.language,
            reader_found: true,
            warnings: warnings_before(
                reader,
                audited(config),
                sources,
                audited(config).len(),
            ),
            outdated: outdated_records(records(reader, audited(config), sources)),
        },
    }
}

/// What the audit of a track finds, with the reader that is registered for its language.
pub open spec fn outdated_report(
    config: TrackConfigView,
    sources: Seq<ExerciseSourcesView>,
) -> OutdatedReportView {
    audit(registered_reader(lowercase(config.language)), config, sources)
}

/// Lists the exercises of a track that are audited: the declared ones that are not
/// deprecated, in the order of the configuration.
pub fn audited_exercises(config: &TrackConfig) -> (names: Vec<String>)
    ensures
        texts(names@) == audited(config@),
{
    let mut names: Vec<String> = Vec::new();
    let mut i: usize = 0;
    while i < config.exercises.len()
        invariant
            i <= config.exercises.len(),
            texts(names@) == active(config@.exercises.take(i as int)).map_values(
                |exercise: ExerciseDeclarationView| exercise.slug,
            ),
        decreases config.exercises.len() - i,
    {
        proof {
            reveal(Seq::filter);
            assert(config@.exercises.take(i + 1).drop_last() =~= config@.exercises.take(i as int));
        }
        if !config.exercises[i].deprecated {
            let ghost before = texts(names@);
            names.push(config.exercises[i].slug.clone());
            assert(texts(names@) =~= before.push(config.exercises@[i as int].slug@));
        }
        i = i + 1;
    }
    assert(config@.exercises.take(i as int) =~= config@.exercises);
    names
}

/// Plans what an audit with the given reader reads, or none.
///
/// The plan holds one lookup for each audited exercise, in the order in which
/// [`find_outdated_with`] takes what was read. With no reader it is empty.
pub fn planned_lookups_with(
    reader: Option<VersionReader>,
    config: &TrackConfig,
    source: &SpecSource,
) -> (lookups: Vec<Lookup>)
    ensures
        lookups_view(lookups@) == plan(reader, config@, source@),
{
    let mut lookups: Vec<Lookup> = Vec::new();
    let reader = match reader {
        Some(reader) => reader,
        None => {
            assert(lookups_view(lookups@) =~= Seq::<LookupView>::empty());
            return lookups;
        },
    };
    let names = audited_exercises(config);
    let mut i: usize = 0;
    while i < names.len()
        invariant
            i <= names.len(),
            texts(names@) == audited(config@),
            lookups_view(lookups@) == plan(Some(reader), config@, source@).take(i as int),
        decreases names.len() - i,
    {
        let name = names[i].as_str();
        let lookup = Lookup {
            name: name.to_owned(),
            track_file: reader.manifest_path(name),
            canonical_data: source.canonical_data_location(name),
        };
        let ghost before = lookups_view(lookups@);
        lookups.push(lookup);
        assert(lookups_view(lookups@) =~= before.push(
            lookup_of(reader, source@, texts(names@)[i as int]),
        ));
        i = i + 1;
    }
    assert(plan(Some(reader), config@, source@).take(i as int) =~= plan(
        Some(reader),
        config@,
        source@,
    ));
    lookups
}

/// Plans what the audit of a track reads: one lookup for each declared exercise that is not
/// deprecated, in the order of the configuration. Where no version reader is registered for
/// the track's language, nothing is read.
///
/// What was read for the lookups, one [`ExerciseSources`] each and in the order of the plan,
/// is what [`find_outdated_exercises`] takes.
pub fn planned_lookups(config: &TrackConfig, source: &SpecSource) -> (lookups: Vec<Lookup>)
    ensures
        lookups_view(lookups@) == plan(
            registered_reader(lowercase(config@.language)),
            config@,
            source@,
        ),
{
    planned_lookups_with(get_version_reader(config.language.as_str()), config, source)
}

/// Makes the record of an exercise from the outcomes of its two lookups, and a warning for
/// each lookup that failed. A failure is caught here: it leaves its version unknown and goes
/// no further.
pub fn resolve(
    name: &str,
    track: Result<String, AuditError>,
    canonical: Result<String, AuditError>,
) -> (r: (ExerciseInfo, Vec<String>))
    ensures
        r.0@ == resolved(name@, outcome(track), outcome(canonical)),
        texts(r.1@) == lookup_warnings(name@, outcome(track), outcome(canonical)),
{
    let mut record = ExerciseInfo::new(name);
    let mut raised: Vec<String> = Vec::new();
    match track {
        Ok(version) => {
            record.track_version = Some(version);
        },
        Err(error) => {
            let mut warning = String::from_str("Failed to get track version for the ");
            warning.append(name);
            warning.append(" exercise: ");
            warning.append(error.message().as_str());
            raised.push(warning);
        },
    }
    match canonical {
        Ok(version) => {
            record.canonical_version = Some(version);
        },
        Err(error) => {
            let mut warning = String::from_str("Could not retrieve canonical-data for the ");
            warning.append(name);
            warning.append(" exercise: ");
            warning.append(error.message().as_str());
            raised.push(warning);
        },
    }
    (record, raised)
}

/// Looks the two versions of one exercise up in what was read for it. Returns the record of
/// the exercise, and a warning for each lookup that failed.
pub fn compare_versions(reader: &VersionReader, name: &str, sources: &ExerciseSources) -> (r: (
    ExerciseInfo,
    Vec<String>,
))
    ensures
        r.0@ == compared(*reader, name@, sources@),
        texts(r.1@) == warnings(*reader, name@, sources@),
{
    resolve(
        name,
        reader.get_track_version(&sources.track_file),
        get_canonical_version(&sources.canonical_data),
    )
}

/// Keeps the records that are outdated, in order.
pub fn outdated_exercises(all: &Vec<ExerciseInfo>) -> (kept: Vec<ExerciseInfo>)
    ensures
        records_view(kept@) == outdated_records(records_view(all@)),
{
    let mut kept: Vec<ExerciseInfo> = Vec::new();
    let mut i: usize = 0;
    while i < all.len()
        invariant
            i <= all.len(),
            records_view(kept@) == outdated_records(records_view(all@).take(i as int)),
        decreases all.len() - i,
    {
        proof {
            reveal(Seq::filter);
            assert(records_view(all@).take(i + 1).drop_last() =~= records_view(all@).take(i as int));
        }
        if all[i].is_outdated() {
            let record = ExerciseInfo {
                name: all[i].name.clone(),
                track_version: all[i].track_version.clone(),
                canonical_version: all[i].canonical_version.clone(),
            };
            kept.push(record);
        }
        i = i + 1;
    }
    assert(records_view(all@).take(i as int) =~= records_view(all@));
    kept
}

/// Shows a version as it stands in a row.
fn show(version: &Option<String>) -> (text: String)
    ensures
        text@ == shown(version_text(*version)),
{
    match version {
        Some(text) => text.clone(),
        None => String::from_str("unknown"),
    }
}

/// Writes the rows of the given exercises, numbered from 1.
pub fn format_rows(listed: &Vec<ExerciseInfo>) -> (lines: Vec<String>)
    ensures
        texts(lines@) == rows(records_view(listed@)),
{
    let mut lines: Vec<String> = Vec::new();
    let mut i: usize = 0;
    while i < listed.len()
        invariant
            i <= listed.len(),
            texts(lines@) == rows(records_view(listed@)).take(i as int),
        decreases listed.len() - i,
    {
        let record = &listed[i];
        let index = decimal_text(i + 1);
        let mut line = pad_left(index.as_str(), 2);
        line.append(") ");
        line.append(pad_right(record.name.as_str(), 25).as_str());
        line.append(" track version: ");
        line.append(pad_right(show(&record.track_version).as_str(), 6).as_str());
        line.append(" canonical version: ");
        line.append(pad_right(show(&record.canonical_version).as_str(), 6).as_str());
        let ghost before = texts(lines@);
        lines.push(line);
        assert(texts(lines@) =~= before.push(line@));
        i = i + 1;
    }
    lines
}

/// Writes the lines, each followed by a line feed.
pub fn format_lines(lines: &Vec<String>) -> (text: String)
    ensures
        text@ == lines_text(texts(lines@)),
{
    let mut text = String::new();
    let mut i: usize = 0;
    while i < lines.len()
        invariant
            i <= lines.len(),
            text@ == lines_text(texts(lines@).take(i as int)),
        decreases lines.len() - i,
    {
        assert(texts(lines@).take(i + 1).drop_last() =~= texts(lines@).take(i as int));
        text.append(lines[i].as_str());
        text.append("\n");
        i = i + 1;
    }
    assert(texts(lines@).take(i as int) =~= texts(lines@));
    text
}

impl OutdatedReport {
    /// Writes the report as the text that the tool prints.
    pub fn render(&self) -> (text: String)
        ensures
            text@ == self@.text(),
    {
        if self.reader_found {
            let mut text = format_lines(&self.warnings);
            text.append("\nOutdated exercises for the ");
            text.append(self.language.as_str());
            text.append(" track:\n");
            text.append(join(&format_rows(&self.outdated), "\n").as_str());
            text
        } else {
            let mut text = String::from_str(
                "Reading the track exercise version is not implemented for the ",
            );
            text.append(self.language.as_str());
            text.append(" track. Aborting.");
            text
        }
    }
}

/// Audits the exercises of a track with the given reader, or reports that there is none.
///
/// `sources` holds what was read for each audited exercise, in the order of
/// [`audited_exercises`]. With no reader nothing is looked up.
pub fn find_outdated_with(
    reader: Option<VersionReader>,
    config: &TrackConfig,
    sources: &Vec<ExerciseSources>,
) -> (report: OutdatedReport)
    ensures
        report@ == audit(reader, config@, sources_view(sources@)),
{
    let reader = match reader {
        Some(reader) => reader,
        None => {
            let report = OutdatedReport {
                language: config.language.clone(),
                reader_found: false,
                warnings: Vec::new(),
                outdated: Vec::new(),
            };
            assert(report@.warnings =~= Seq::<Seq<char>>::empty());
            assert(report@.outdated =~= Seq::<ExerciseInfoView>::empty());
            return report;
        },
    };
    let names = audited_exercises(config);
    let ghost read = sources_view(sources@);
    let mut all: Vec<ExerciseInfo> = Vec::new();
    let mut raised: Vec<String> = Vec::new();
    let mut i: usize = 0;
    while i < names.len()
        invariant
            i <= names.len(),
            read == sources_view(sources@),
            records_view(all@) == records(reader, texts(names@), read).take(i as int),
            texts(raised@) == warnings_before(reader, texts(names@), read, i as nat),
        decreases names.len() - i,
    {
        let ghost records_before = records_view(all@);
        if i < sources.len() {
            let (record, mut more) = compare_versions(&reader, names[i].as_str(), &sources[i]);
            all.push(record);
            raised.append(&mut more);
        } else {
            all.push(ExerciseInfo::new(names[i].as_str()));
        }
        assert(records_view(all@) =~= records_before.push(
            record_at(reader, texts(names@), read, i as int),
        ));
        i = i + 1;
    }
    assert(records(reader, texts(names@), read).take(i as int) =~= records(
        reader,
        texts(names@),
        read,
    ));
    OutdatedReport {
        language: config.language.clone(),
        reader_found: true,
        warnings: raised,
        outdated: outdated_exercises(&all),
    }
}

/// Audits the exercises of a track: for each declared exercise that is not deprecated, looks
/// its track version and its canonical version up in what was read for it, and keeps the
/// exercises whose two versions are known and differ.
///
/// `sources` holds what was read for each audited exercise, in the order of
/// [`audited_exercises`]. A lookup that fails gives a warning and leaves its version unknown;
/// it never ends the audit. Where no version reader is registered for the track's language,
/// nothing is looked up and the report says so.
pub fn find_outdated_exercises(config: &TrackConfig, sources: &Vec<ExerciseSources>) -> (report:
    OutdatedReport)
    ensures
        report@ == outdated_report(config@, sources_view(sources@)),
{
    find_outdated_with(get_version_reader(config.language.as_str()), config, sources)
}

/// Audits the exercises of a track and writes the report: the warnings, then the outdated
/// exercises, one row each, below a header that names the track's language.
pub fn list_outdated_exercises(config: &TrackConfig, sources: &Vec<ExerciseSources>) -> (text:
    String)
    ensures
        text@ == outdated_report(config@, sources_view(sources@)).text(),
{
    find_outdated_exercises(config, sources).render()
}

} // verus!
