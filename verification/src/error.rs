//! What can go wrong while loading apps, dispatching a command and running a
//! script.

use vstd::prelude::*;
use vstd::string::*;

verus! {

/// In which way a manifest fails to have the required shape.
#[derive(Debug, Clone, PartialEq, Eq)]
pub enum ManifestFault {
    /// The text is not a TOML document; `report` is the parser's account.
    Syntax { report: String },
    /// The document has no key `id` whose value is a string.
    Id,
    /// The document has no key `trigger_phrase` whose value is a string.
    TriggerPhrase,
}

/// The mathematical content of a [`ManifestFault`].
pub enum FaultView {
    Syntax { report: Seq<char> },
    Id,
    TriggerPhrase,
}

impl View for ManifestFault {
    type V = FaultView;

    open spec fn view(&self) -> FaultView {
        match self {
            ManifestFault::Syntax { report } => FaultView::Syntax { report: report@ },
            ManifestFault::Id => FaultView::Id,
            ManifestFault::TriggerPhrase => FaultView::TriggerPhrase,
        }
    }
}

/// A failure of the app host. Each variant ends only the operation that it
/// arose in: the load of the registry, one dispatch, or one invocation.
#[derive(Debug, Clone, PartialEq, Eq)]
pub enum Error {
    /// A directory, a manifest or a script could not be read.
    Io { path: String },
    /// A manifest does not have the required shape.
    Manifest { fault: ManifestFault },
    /// Two manifests carry the same identifier.
    DuplicateId { id: String },
    /// No app's trigger phrase begins the command.
    UnrecognizedCommand { command: String },
    /// The script's top-level code could not be set up or run; `report` is
    /// the scripting runtime's account.
    ScriptLoad { report: String },
    /// The script has no entry point, or the entry point raised an error;
    /// `report` is the scripting runtime's account.
    ScriptExecution { report: String },
}

/// The mathematical content of an [`Error`].
pub enum ErrorView {
    Io { path: Seq<char> },
    Manifest { fault: FaultView },
    DuplicateId { id: Seq<char> },
    UnrecognizedCommand { command: Seq<char> },
    ScriptLoad { report: Seq<char> },
    ScriptExecution { report: Seq<char> },
}

impl View for Error {
    type V = ErrorView;

    open spec fn view(&self) -> ErrorView {
        match self {
            Error::Io { path } => ErrorView::Io { path: path@ },
            Error::Manifest { fault } => ErrorView::Manifest { fault: fault@ },
            Error::DuplicateId { id } => ErrorView::DuplicateId { id: id@ },
            Error::UnrecognizedCommand { command } => ErrorView::UnrecognizedCommand {
                command: command@,
            },
            Error::ScriptLoad { report } => ErrorView::ScriptLoad { report: report@ },
            Error::ScriptExecution { report } => ErrorView::ScriptExecution { report: report@ },
        }
    }
}

/// The content of an error that may be absent.
pub open spec fn view_of(failure: Option<Error>) -> Option<ErrorView> {
    match failure {
        Some(e) => Some(e@),
        None => None,
    }
}

impl ErrorView {
    /// The one-line description of this error.
    pub open spec fn message(self) -> Seq<char> {
        match self {
            ErrorView::Io { path } => "Error accessing "@ + path,
            ErrorView::Manifest { fault: FaultView::Syntax { report } } => "Manifest: "@ + report,
            ErrorView::Manifest { fault: FaultView::Id } => "Manifest: no string field `id`"@,
            ErrorView::Manifest { fault: FaultView::TriggerPhrase } =>
                "Manifest: no string field `trigger_phrase`"@,
            ErrorView::DuplicateId { id } => "Duplicate app id '"@ + id + "'"@,
            ErrorView::UnrecognizedCommand { command } =>
                "Unable to find an app which can handle '"@ + command + "'"@,
            ErrorView::ScriptLoad { report } => "Script failed to load: "@ + report,
            ErrorView::ScriptExecution { report } => "Script failed to run: "@ + report,
        }
    }
}

impl Error {
    /// A one-line description for people.
    pub fn message(&self) -> (text: String)
        ensures
            text@ == self@.message(),
    {
        match self {
            Error::Io { path } => String::from_str("Error accessing ").concat(path.as_str()),
            Error::Manifest { fault } => match fault {
                ManifestFault::Syntax { report } => String::from_str("Manifest: ").concat(
                    report.as_str(),
                ),
                ManifestFault::Id => String::from_str("Manifest: no string field `id`"),
                ManifestFault::TriggerPhrase => String::from_str(
                    "Manifest: no string field `trigger_phrase`",
                ),
            },
            Error::DuplicateId { id } => String::from_str("Duplicate app id '").concat(
                id.as_str(),
            ).concat("'"),
            Error::UnrecognizedCommand { command } => String::from_str(
                "Unable to find an app which can handle '",
            ).concat(command.as_str()).concat("'"),
            Error::ScriptLoad { report } => String::from_str("Script failed to load: ").concat(
                report.as_str(),
            ),
            Error::ScriptExecution { report } => String::from_str(
                "Script failed to run: ",
            ).concat(report.as_str()),
        }
    }
}

} // verus!
