//! How a run ends: the failure kinds, the line each puts on the error stream,
//! and the status the process hands to its invoker.

use vstd::prelude::*;

verus! {

/// Status of a run that did what it was asked.
pub const EXIT_SUCCESS: i32 = 0;

/// Status of a run that the environment made fail.
pub const EXIT_FAILURE: i32 = 1;

/// Status of a run that was invoked wrongly.
pub const EXIT_USAGE: i32 = 2;

/// Why a run failed.
#[derive(Debug, PartialEq, Eq)]
pub enum Failure {
    /// The copier was not given exactly a source and a destination.
    Usage { program: String },
    /// The copy itself failed; `reason` is the system's description.
    Copy { reason: String },
    /// The directory could not be opened for listing.
    Enumeration { reason: String },
    /// An entry could not be read while listing.
    EntryRead { reason: String },
}

/// A `Failure` with its strings as character sequences.
pub enum FailureView {
    Usage { program: Seq<char> },
    Copy { reason: Seq<char> },
    Enumeration { reason: Seq<char> },
    EntryRead { reason: Seq<char> },
}

impl View for Failure {
    type V = FailureView;

    open spec fn view(&self) -> FailureView {
        match *self {
            Failure::Usage { program } => FailureView::Usage { program: program@ },
            Failure::Copy { reason } => FailureView::Copy { reason: reason@ },
            Failure::Enumeration { reason } => FailureView::Enumeration { reason: reason@ },
            Failure::EntryRead { reason } => FailureView::EntryRead { reason: reason@ },
        }
    }
}

impl FailureView {
    /// The status that this failure ends the process with: 2 for a wrong
    /// invocation, 1 for everything the environment refused.
    pub open spec fn exit_code(self) -> int {
        match self {
            FailureView::Usage { .. } => 2,
            _ => 1,
        }
    }

    /// The one line that this failure puts on the error stream.
    pub open spec fn message(self) -> Seq<char> {
        match self {
            FailureView::Usage { program } => "Usage: "@ + program + " <source> <destination>"@,
            FailureView::Copy { reason } => "Copy failed: "@ + reason,
            FailureView::Enumeration { reason } => "Error listing directory: "@ + reason,
            FailureView::EntryRead { reason } => "Error listing directory: "@ + reason,
        }
    }
}

impl Failure {
    /// The status that this failure ends the process with.
    pub fn exit_code(&self) -> (code: i32)
        ensures
            code == self@.exit_code(),
    {
        match self {
            Failure::Usage { .. } => EXIT_USAGE,
            _ => EXIT_FAILURE,
        }
    }

    /// The line for the error stream, without its line ending.
    pub fn message(&self) -> (line: String)
        ensures
            line@ == self@.message(),
    {
        match self {
            Failure::Usage { program } => {
                let mut line = String::from_str("Usage: ");
                line.append(program.as_str());
                line.append(" <source> <destination>");
                line
            },
            Failure::Copy { reason } => {
                let mut line = String::from_str("Copy failed: ");
                line.append(reason.as_str());
                line
            },
            Failure::Enumeration { reason } => {
                let mut line = String::from_str("Error listing directory: ");
                line.append(reason.as_str());
                line
            },
            Failure::EntryRead { reason } => {
                let mut line = String::from_str("Error listing directory: ");
                line.append(reason.as_str());
                line
            },
        }
    }
}

/// What a run leaves behind when it ends: the status for the invoker and, after
/// a failure, the line for the error stream.
#[derive(Debug, PartialEq, Eq)]
pub struct Exit {
    pub code: i32,
    pub diagnostic: Option<String>,
}

/// An `Exit` with its status as an integer and its line as a character sequence.
pub struct ExitView {
    pub code: int,
    pub diagnostic: Option<Seq<char>>,
}

impl View for Exit {
    type V = ExitView;

    open spec fn view(&self) -> ExitView {
        ExitView {
            code: self.code as int,
            diagnostic: match self.diagnostic {
                Some(line) => Some(line@),
                None => None,
            },
        }
    }
}

/// The outcome of a run with the strings of its failure as character sequences.
pub open spec fn outcome_view(outcome: Result<(), Failure>) -> Result<(), FailureView> {
    match outcome {
        Ok(_) => Ok(()),
        Err(failure) => Err(failure@),
    }
}

/// The end of a run with the given outcome: status 0 and a silent error stream
/// after success, else the failure's status and its line.
pub open spec fn spec_conclude(outcome: Result<(), FailureView>) -> ExitView {
    match outcome {
        Ok(_) => ExitView { code: 0, diagnostic: None },
        Err(failure) => ExitView {
            code: failure.exit_code(),
            diagnostic: Some(failure.message()),
        },
    }
}

/// Turns the outcome of a run into its status and its diagnostic line. The
/// first failure is the only one: nothing is retried, so an outcome holds at
/// most one.
pub fn conclude(outcome: &Result<(), Failure>) -> (exit: Exit)
    ensures
        exit@ == spec_conclude(outcome_view(*outcome)),
        exit.code == EXIT_SUCCESS <==> outcome is Ok,
        exit.diagnostic is None <==> outcome is Ok,
{
    match outcome {
        Ok(_) => Exit { code: EXIT_SUCCESS, diagnostic: None },
        Err(failure) => Exit { code: failure.exit_code(), diagnostic: Some(failure.message()) },
    }
}

} // verus!
