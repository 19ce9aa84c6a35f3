//! The file copier: `<program> <source> <destination>`.
//!
//! A run validates its arguments, has the system copy the file in one step, and
//! reports. `plan` is the validation and `settle` reads the copy's result; the
//! copy between them is the caller's to perform.

use crate::status::{outcome_view, spec_conclude, ExitView, Failure, FailureView};
use vstd::prelude::*;

verus! {

/// A copy to perform: the whole content of `source` goes to `destination`,
/// which is created if absent and overwritten if present. Paths are passed on
/// as given; whether they are well-formed is for the system to say.
#[derive(Debug, PartialEq, Eq)]
pub struct CopyRequest {
    pub source: String,
    pub destination: String,
}

/// A `CopyRequest` with its paths as character sequences.
pub struct CopyRequestView {
    pub source: Seq<char>,
    pub destination: Seq<char>,
}

impl View for CopyRequest {
    type V = CopyRequestView;

    open spec fn view(&self) -> CopyRequestView {
        CopyRequestView { source: self.source@, destination: self.destination@ }
    }
}

/// The name that an argument vector gives the program: its first word, or
/// nothing where the vector is empty.
pub open spec fn spec_program(args: Seq<Seq<char>>) -> Seq<char> {
    if args.len() > 0 {
        args[0]
    } else {
        Seq::empty()
    }
}

/// What an invocation asks for. `args` is the argument vector, program name
/// first: with exactly two arguments after the name they are the source and the
/// destination, in that order; any other count, that of an empty vector too, is
/// a usage failure that names the program.
pub open spec fn spec_plan(args: Seq<Seq<char>>) -> Result<CopyRequestView, FailureView> {
    if args.len() == 3 {
        Ok(CopyRequestView { source: args[1], destination: args[2] })
    } else {
        Err(FailureView::Usage { program: spec_program(args) })
    }
}

/// The result of `plan` with its strings as character sequences.
pub open spec fn plan_view(plan: Result<CopyRequest, Failure>) -> Result<
    CopyRequestView,
    FailureView,
> {
    match plan {
        Ok(request) => Ok(request@),
        Err(failure) => Err(failure@),
    }
}

/// Validates an argument vector, whatever it holds. A vector without even the
/// program's name is a usage failure like any other, with an empty name in its
/// line.
pub fn plan(args: &Vec<String>) -> (result: Result<CopyRequest, Failure>)
    ensures
        plan_view(result) == spec_plan(args.deep_view()),
        result is Ok <==> args.len() == 3,
{
    if args.len() != 3 {
        let program = if args.len() > 0 {
            args[0].clone()
        } else {
            String::new()
        };
        return Err(Failure::Usage { program });
    }
    Ok(CopyRequest { source: args[1].clone(), destination: args[2].clone() })
}

/// The outcome of a run whose copy ended as given: `Err` holds the system's
/// description of what went wrong.
pub open spec fn spec_settle(copied: Result<(), Seq<char>>) -> Result<(), FailureView> {
    match copied {
        Ok(_) => Ok(()),
        Err(reason) => Err(FailureView::Copy { reason }),
    }
}

/// The result of the copy with its description as a character sequence.
pub open spec fn copied_view(copied: Result<(), String>) -> Result<(), Seq<char>> {
    match copied {
        Ok(_) => Ok(()),
        Err(reason) => Err(reason@),
    }
}

/// Reads the result of the copy. Whatever made the system refuse (a missing
/// source, a missing destination directory, no permission, a full disk) is one
/// kind of failure, told apart only by its description.
pub fn settle(copied: Result<(), String>) -> (outcome: Result<(), Failure>)
    ensures
        outcome_view(outcome) == spec_settle(copied_view(copied)),
        outcome is Ok <==> copied is Ok,
{
    match copied {
        Ok(_) => Ok(()),
        Err(reason) => Err(Failure::Copy { reason }),
    }
}

/// An invocation with any number of arguments but two, none at all and an
/// empty vector included, plans no copy: it ends with status 2 and one line on
/// the error stream, the usage line, which names the program as it was invoked.
pub proof fn law_wrong_argument_count(args: Seq<Seq<char>>)
    requires
        args.len() != 3,
    ensures
        spec_plan(args) is Err,
        spec_conclude(Err(spec_plan(args)->Err_0)) == (ExitView {
            code: 2,
            diagnostic: Some("Usage: "@ + spec_program(args) + " <source> <destination>"@),
        }),
{
}

/// An invocation with two arguments plans exactly one copy, from the first to
/// the second, whatever the two strings hold.
pub proof fn law_two_arguments(program: Seq<char>, source: Seq<char>, destination: Seq<char>)
    ensures
        spec_plan(seq![program, source, destination]) == Ok::<CopyRequestView, FailureView>(
            CopyRequestView { source, destination },
        ),
{
}

/// The status follows the copy: 0 and a silent error stream when the system
/// copied the file; 1 and the system's description behind `Copy failed: ` when
/// it did not.
pub proof fn law_status_follows_copy(copied: Result<(), Seq<char>>)
    ensures
        copied is Ok ==> spec_conclude(spec_settle(copied)) == (ExitView {
            code: 0,
            diagnostic: None,
        }),
        copied matches Err(reason) ==> spec_conclude(spec_settle(copied)) == (ExitView {
            code: 1,
            diagnostic: Some("Copy failed: "@ + reason),
        }),
{
}

} // verus!
