//! The decisions of one run: after compiling, generating and writing, what
//! to do next and with which exit status to stop.

use vstd::prelude::*;

verus! {

/// The status of a run that wrote its bindings.
pub const SUCCESS_STATUS: i32 = 0;

/// The status of a run whose link directive was refused.
pub const LINK_ERROR_STATUS: i32 = 1;

/// The status of a run whose generation or write failed.
pub const FAILURE_STATUS: i32 = -1;

/// Where a run stands.
#[derive(Clone, Copy, Debug, PartialEq, Eq, Structural)]
pub enum Stage {
    /// The arguments are decoded and the sink chosen; the configuration is being built.
    Compiling,
    /// The configuration was handed to the engine.
    Generating,
    /// The bindings are being written to the sink.
    Writing,
    /// The run is over.
    Finished,
}

/// What the last step came to.
#[derive(Clone, Copy, Debug, PartialEq, Eq, Structural)]
pub enum Event {
    Compiled,
    LinkRejected,
    Generated,
    GenerationFailed,
    Written,
    WriteFailed,
}

/// What is printed before the process exits.
#[derive(Clone, Copy, Debug, PartialEq, Eq, Structural)]
pub enum Notice {
    /// Nothing.
    Silent,
    /// The diagnostic of the refused link directive, on standard output.
    LinkDiagnostic,
    /// An error-level log record saying that the bindings could not be written.
    WriteDiagnostic,
}

/// What the run does next.
#[derive(Clone, Copy, Debug, PartialEq, Eq, Structural)]
pub enum Action {
    /// Hand the configuration to the engine.
    Generate,
    /// Write the bindings to the sink, then close it.
    Write,
    /// Print the notice and exit with the status.
    Exit { status: i32, notice: Notice },
}

/// Whether the event can follow the stage.
pub open spec fn event_fits(stage: Stage, event: Event) -> bool {
    match stage {
        Stage::Compiling => event == Event::Compiled || event == Event::LinkRejected,
        Stage::Generating => event == Event::Generated || event == Event::GenerationFailed,
        Stage::Writing => event == Event::Written || event == Event::WriteFailed,
        Stage::Finished => false,
    }
}

/// The transitions of a run: each success leads to the next step, each
/// failure ends the run.
pub open spec fn transition(stage: Stage, event: Event) -> (Stage, Action) {
    match event {
        Event::Compiled => (Stage::Generating, Action::Generate),
        Event::LinkRejected => (
            Stage::Finished,
            Action::Exit { status: LINK_ERROR_STATUS, notice: Notice::LinkDiagnostic },
        ),
        Event::Generated => (Stage::Writing, Action::Write),
        Event::GenerationFailed => (
            Stage::Finished,
            Action::Exit { status: FAILURE_STATUS, notice: Notice::Silent },
        ),
        Event::Written => (
            Stage::Finished,
            Action::Exit { status: SUCCESS_STATUS, notice: Notice::Silent },
        ),
        Event::WriteFailed => (
            Stage::Finished,
            Action::Exit { status: FAILURE_STATUS, notice: Notice::WriteDiagnostic },
        ),
    }
}

/// Whether the event can follow the stage.
pub fn fits(stage: Stage, event: Event) -> (r: bool)
    ensures
        r == event_fits(stage, event),
{
    match stage {
        Stage::Compiling => event == Event::Compiled || event == Event::LinkRejected,
        Stage::Generating => event == Event::Generated || event == Event::GenerationFailed,
        Stage::Writing => event == Event::Written || event == Event::WriteFailed,
        Stage::Finished => false,
    }
}

/// The stage and action that follow an event.
pub fn next_step(stage: Stage, event: Event) -> (r: (Stage, Action))
    requires
        event_fits(stage, event),
    ensures
        r == transition(stage, event),
        r.0 == Stage::Finished <==> r.1 is Exit,
        r.1 matches Action::Exit { status, .. } ==> (status == SUCCESS_STATUS <==> event
            == Event::Written),
{
    match event {
        Event::Compiled => (Stage::Generating, Action::Generate),
        Event::LinkRejected => (
            Stage::Finished,
            Action::Exit { status: LINK_ERROR_STATUS, notice: Notice::LinkDiagnostic },
        ),
        Event::Generated => (Stage::Writing, Action::Write),
        Event::GenerationFailed => (
            Stage::Finished,
            Action::Exit { status: FAILURE_STATUS, notice: Notice::Silent },
        ),
        Event::Written => (
            Stage::Finished,
            Action::Exit { status: SUCCESS_STATUS, notice: Notice::Silent },
        ),
        Event::WriteFailed => (
            Stage::Finished,
            Action::Exit { status: FAILURE_STATUS, notice: Notice::WriteDiagnostic },
        ),
    }
}

/// The stage that a run reaches from `stage` after the events; `None`
/// where an event does not fit the stage it meets.
pub open spec fn run_from(stage: Stage, events: Seq<Event>) -> Option<Stage>
    decreases events.len(),
{
    if events.len() == 0 {
        Some(stage)
    } else if event_fits(stage, events[0]) {
        run_from(transition(stage, events[0]).0, events.drop_first())
    } else {
        None
    }
}

/// How many more events a run can take from a stage.
pub open spec fn steps_left(stage: Stage) -> nat {
    match stage {
        Stage::Compiling => 3,
        Stage::Generating => 2,
        Stage::Writing => 1,
        Stage::Finished => 0,
    }
}

/// Whether the event is a failure.
pub open spec fn is_failure(event: Event) -> bool {
    event == Event::LinkRejected || event == Event::GenerationFailed || event == Event::WriteFailed
}

/// No run goes past its end: each stage takes one event, and after a
/// failure no event comes; in particular a refused link directive is never
/// followed by generation.
pub proof fn lemma_failure_ends_run(stage: Stage, events: Seq<Event>)
    requires
        run_from(stage, events) is Some,
    ensures
        events.len() <= steps_left(stage),
        forall|i: int| 0 <= i < events.len() - 1 ==> !is_failure(#[trigger] events[i]),
    decreases events.len(),
{
    if events.len() > 0 {
        let tail = events.drop_first();
        let next = transition(stage, events[0]).0;
        lemma_failure_ends_run(next, tail);
        if is_failure(events[0]) && tail.len() > 0 {
            assert(run_from(Stage::Finished, tail) is None);
        }
        assert forall|i: int| 0 <= i < events.len() - 1 implies !is_failure(#[trigger] events[i]) by {
            if i > 0 {
                assert(events[i] == tail[i - 1]);
            }
        }
    }
}

} // verus!
