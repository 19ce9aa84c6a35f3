//! The directory lister: one line per entry of the current directory.
//!
//! The entries come in whatever order the file system yields them, and each
//! name is printed as soon as it is read. The first failure ends the run: lines
//! printed so far stay, and nothing after the failure is read.
//!
//! `step` is the decision for one event, for a caller that prints as it reads;
//! `run` is the same over a whole enumeration at once.

use crate::status::{outcome_view, spec_conclude, ExitView, Failure, FailureView};
use vstd::prelude::*;

verus! {

/// What reading the directory yields.
#[derive(Debug, PartialEq, Eq)]
pub enum Event {
    /// The directory could not be opened; `reason` is the system's description.
    OpenFailed { reason: String },
    /// The next entry, by its name: the last component of its path.
    Entry { name: String },
    /// The next entry could not be read.
    EntryFailed { reason: String },
}

/// An `Event` with its string as a character sequence.
pub enum EventView {
    OpenFailed { reason: Seq<char> },
    Entry { name: Seq<char> },
    EntryFailed { reason: Seq<char> },
}

impl View for Event {
    type V = EventView;

    open spec fn view(&self) -> EventView {
        match *self {
            Event::OpenFailed { reason } => EventView::OpenFailed { reason: reason@ },
            Event::Entry { name } => EventView::Entry { name: name@ },
            Event::EntryFailed { reason } => EventView::EntryFailed { reason: reason@ },
        }
    }
}

/// What the lister does about an event.
#[derive(Debug, PartialEq, Eq)]
pub enum Action {
    /// Put `line` on standard output and read on.
    Print { line: String },
    /// Stop reading; the run has failed.
    Abort { failure: Failure },
}

/// An `Action` with its strings as character sequences.
pub enum ActionView {
    Print { line: Seq<char> },
    Abort { failure: FailureView },
}

impl View for Action {
    type V = ActionView;

    open spec fn view(&self) -> ActionView {
        match *self {
            Action::Print { line } => ActionView::Print { line: line@ },
            Action::Abort { failure } => ActionView::Abort { failure: failure@ },
        }
    }
}

/// The action for one event: an entry is printed by its name; a failure,
/// whether in opening the directory or in reading an entry, aborts.
pub open spec fn spec_step(event: EventView) -> ActionView {
    match event {
        EventView::Entry { name } => ActionView::Print { line: name },
        EventView::OpenFailed { reason } => ActionView::Abort {
            failure: FailureView::Enumeration { reason },
        },
        EventView::EntryFailed { reason } => ActionView::Abort {
            failure: FailureView::EntryRead { reason },
        },
    }
}

/// Decides what to do about one event.
pub fn step(event: Event) -> (action: Action)
    ensures
        action@ == spec_step(event@),
{
    match event {
        Event::Entry { name } => Action::Print { line: name },
        Event::OpenFailed { reason } => Action::Abort { failure: Failure::Enumeration { reason } },
        Event::EntryFailed { reason } => Action::Abort { failure: Failure::EntryRead { reason } },
    }
}

/// A whole run: the lines put on standard output, in order, and how it ended.
#[derive(Debug, PartialEq, Eq)]
pub struct Listing {
    pub lines: Vec<String>,
    pub outcome: Result<(), Failure>,
}

/// A `Listing` with its strings as character sequences.
pub struct ListingView {
    pub lines: Seq<Seq<char>>,
    pub outcome: Result<(), FailureView>,
}

impl View for Listing {
    type V = ListingView;

    open spec fn view(&self) -> ListingView {
        ListingView { lines: self.lines.deep_view(), outcome: outcome_view(self.outcome) }
    }
}

/// The events of an enumeration with their strings as character sequences.
pub open spec fn events_view(events: Seq<Event>) -> Seq<EventView> {
    Seq::new(events.len(), |i: int| events[i]@)
}

/// How many entries an enumeration yields before its first failure: all of
/// them if it has none.
pub open spec fn entries_before_failure(events: Seq<EventView>) -> nat
    decreases events.len(),
{
    if events.len() > 0 && events[0] is Entry {
        1 + entries_before_failure(events.drop_first())
    } else {
        0
    }
}

/// The run over a whole enumeration: the names of the entries before the first
/// failure, in the order yielded, and that failure if there is one.
pub open spec fn spec_run(events: Seq<EventView>) -> ListingView {
    let stop = entries_before_failure(events);
    ListingView {
        lines: Seq::new(stop, |i: int| events[i]->name),
        outcome: if stop < events.len() {
            Err(spec_step(events[stop as int])->failure)
        } else {
            Ok(())
        },
    }
}

/// `entries_before_failure` is the one position up to which every event is an
/// entry and at which, if it is inside the enumeration, the event is none.
pub proof fn lemma_first_failure(events: Seq<EventView>, stop: int)
    requires
        0 <= stop <= events.len(),
        forall|i: int| 0 <= i < stop ==> events[i] is Entry,
        stop < events.len() ==> !(events[stop] is Entry),
    ensures
        entries_before_failure(events) == stop,
    decreases stop,
{
    if stop > 0 {
        lemma_first_failure(events.drop_first(), stop - 1);
    }
}

/// The first failure lies inside the enumeration or at its end.
pub proof fn lemma_stop_in_range(events: Seq<EventView>)
    ensures
        entries_before_failure(events) <= events.len(),
    decreases events.len(),
{
    if events.len() > 0 && events[0] is Entry {
        lemma_stop_in_range(events.drop_first());
    }
}

/// Lists a whole enumeration: `step` on each event in turn, up to the first
/// that aborts.
pub fn run(events: Vec<Event>) -> (listing: Listing)
    ensures
        listing@ == spec_run(events_view(events@)),
{
    let ghost all = events_view(events@);
    let mut lines: Vec<String> = Vec::new();
    let mut outcome: Result<(), Failure> = Ok(());
    for event in it: events
        invariant_except_break
            outcome is Ok,
            lines.len() == it.index(),
        invariant
            all == events_view(it.seq()),
            forall|i: int|
                0 <= i < lines.len() ==> all[i] == (EventView::Entry { name: #[trigger] lines[i]@ }),
        ensures
            lines.len() <= all.len(),
            outcome is Ok ==> lines.len() == all.len(),
            outcome matches Err(failure) ==> lines.len() < all.len() && spec_step(
                all[lines.len() as int],
            ) == (ActionView::Abort { failure: failure@ }),
    {
        match step(event) {
            Action::Print { line } => {
                lines.push(line);
            },
            Action::Abort { failure } => {
                outcome = Err(failure);
                break ;
            },
        }
    }
    proof {
        assert forall|i: int| 0 <= i < lines.len() implies all[i] is Entry by {
            assert(all[i] == EventView::Entry { name: lines[i]@ });
        }
        lemma_first_failure(all, lines.len() as int);
        assert(lines.deep_view() =~= spec_run(all).lines);
    }
    Listing { lines, outcome }
}

/// Running is stepping: an empty enumeration prints nothing and succeeds; an
/// entry in front adds its line before the run over the rest; a failure in
/// front ends the run at once, with nothing printed and nothing after it read.
pub proof fn law_run_is_stepwise(events: Seq<EventView>)
    ensures
        events.len() == 0 ==> spec_run(events) == (ListingView {
            lines: seq![],
            outcome: Ok(()),
        }),
        events.len() > 0 ==> match spec_step(events[0]) {
            ActionView::Print { line } => spec_run(events) == (ListingView {
                lines: seq![line] + spec_run(events.drop_first()).lines,
                outcome: spec_run(events.drop_first()).outcome,
            }),
            ActionView::Abort { failure } => spec_run(events) == (ListingView {
                lines: seq![],
                outcome: Err(failure),
            }),
        },
{
    if events.len() > 0 && events[0] is Entry {
        let rest = events.drop_first();
        lemma_stop_in_range(rest);
        assert(spec_run(events).lines =~= seq![events[0]->name] + spec_run(rest).lines);
    } else {
        assert(spec_run(events).lines =~= seq![]);
    }
}

/// A directory that is read without failure is listed in full: the lines are
/// the names of its entries, each once for each time it was yielded and in the
/// order yielded, so as a set they are the set of the names; and the run ends
/// with status 0 and a silent error stream.
pub proof fn law_lists_every_entry(names: Seq<Seq<char>>)
    ensures
        ({
            let events = Seq::new(names.len(), |i: int| EventView::Entry { name: names[i] });
            &&& spec_run(events).lines == names
            &&& spec_run(events).lines.to_set() == names.to_set()
            &&& spec_run(events).outcome is Ok
            &&& spec_conclude(spec_run(events).outcome) == (ExitView {
                code: 0,
                diagnostic: None,
            })
        }),
{
    let events = Seq::new(names.len(), |i: int| EventView::Entry { name: names[i] });
    lemma_first_failure(events, names.len() as int);
}

/// A directory that cannot be opened is not listed: nothing is printed, and the
/// run ends with status 1 and one line on the error stream, the system's
/// description behind `Error listing directory: `.
pub proof fn law_unreadable_directory(reason: Seq<char>, later: Seq<EventView>)
    ensures
        ({
            let events = seq![EventView::OpenFailed { reason }] + later;
            let exit = spec_conclude(spec_run(events).outcome);
            &&& spec_run(events).lines.len() == 0
            &&& spec_run(events).outcome == Err::<(), FailureView>(
                FailureView::Enumeration { reason },
            )
            &&& exit.code == 1
            &&& exit.diagnostic == Some("Error listing directory: "@ + reason)
            &&& "Error listing directory: "@.is_prefix_of(exit.diagnostic->Some_0)
        }),
{
    let events = seq![EventView::OpenFailed { reason }] + later;
    lemma_first_failure(events, 0);
}

/// A run that fails, at whatever entry, keeps the lines of the entries before
/// it and ends with status 1 and a line that begins `Error listing directory: `.
pub proof fn law_failure_ends_the_run(events: Seq<EventView>, stop: int)
    requires
        0 <= stop < events.len(),
        forall|i: int| 0 <= i < stop ==> events[i] is Entry,
        !(events[stop] is Entry),
    ensures
        spec_run(events).lines == Seq::new(stop as nat, |i: int| events[i]->name),
        spec_run(events).outcome is Err,
        spec_conclude(spec_run(events).outcome).code == 1,
        spec_conclude(spec_run(events).outcome).diagnostic matches Some(line)
            && "Error listing directory: "@.is_prefix_of(line),
{
    lemma_first_failure(events, stop);
}

} // verus!
