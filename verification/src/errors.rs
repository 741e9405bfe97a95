//! The failures an audit can meet, and which of them end the run.

use vstd::prelude::*;

verus! {

/// What went wrong.
///
/// The first three kinds concern the track itself and end the run. The others concern a single
/// exercise or the specification source; they are reported and the audit goes on.
#[derive(Clone, Copy, Debug, PartialEq, Eq, Structural)]
pub enum ErrorKind {
    /// The version-control query for the top-level directory failed.
    VcsQueryError,
    /// The track configuration could not be read.
    ConfigNotFound,
    /// The track configuration is not a document of the expected shape.
    ConfigParseError,
    /// The per-exercise metadata file of the track could not be read.
    TrackFileMissing,
    /// The per-exercise metadata file of the track is malformed.
    TrackFileParseError,
    /// The document was parsed but holds no version string where one is expected.
    VersionFieldMissing,
    /// The specification source could not be read or reached.
    SpecSourceUnavailable,
    /// The specification source answered with a document of an unexpected shape.
    SpecFormatError,
}

impl ErrorKind {
    /// Whether a failure of this kind leaves nothing meaningful to report.
    pub open spec fn fatal(self) -> bool {
        self == ErrorKind::VcsQueryError || self == ErrorKind::ConfigNotFound || self
            == ErrorKind::ConfigParseError
    }

    /// Tells whether a failure of this kind ends the whole run.
    pub fn is_fatal(&self) -> (r: bool)
        ensures
            r == self.fatal(),
    {
        match self {
            ErrorKind::VcsQueryError => true,
            ErrorKind::ConfigNotFound => true,
            ErrorKind::ConfigParseError => true,
            _ => false,
        }
    }
}

/// A failure: its kind, and a cause that a person can read.
#[derive(Clone, Debug, PartialEq, Eq)]
pub struct AuditError {
    pub kind: ErrorKind,
    pub cause: String,
}

/// The mathematical value of an [`AuditError`].
pub struct ErrorView {
    pub kind: ErrorKind,
    pub cause: Seq<char>,
}

impl View for AuditError {
    type V = ErrorView;

    open spec fn view(&self) -> ErrorView {
        ErrorView { kind: self.kind, cause: self.cause@ }
    }
}

impl AuditError {
    /// Makes a failure of the given kind from the text of its cause.
    pub fn new(kind: ErrorKind, cause: String) -> (e: AuditError)
        ensures
            e@ == (ErrorView { kind, cause: cause@ }),
    {
        AuditError { kind, cause }
    }

    /// The text shown to the user for this failure: its cause.
    pub fn message(&self) -> (text: String)
        ensures
            text@ == self@.cause,
    {
        self.cause.clone()
    }

    /// Tells whether this failure ends the whole run.
    pub fn is_fatal(&self) -> (r: bool)
        ensures
            r == self@.kind.fatal(),
    {
        self.kind.is_fatal()
    }
}

/// The value of what reading a file or fetching a document gave: its content, or the cause
/// for which there is none.
pub open spec fn fetched(r: Result<String, String>) -> Result<Seq<char>, Seq<char>> {
    match r {
        Ok(content) => Ok(content@),
        Err(cause) => Err(cause@),
    }
}

/// The value of the outcome of a lookup: the text found, or the failure.
pub open spec fn outcome(r: Result<String, AuditError>) -> Result<Seq<char>, ErrorView> {
    match r {
        Ok(text) => Ok(text@),
        Err(error) => Err(error@),
    }
}

} // verus!
