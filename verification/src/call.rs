//! One call of the bridge, as a state machine.
//!
//! The bridge does the outside work: it reads the caller's argument vector,
//! initializes the engine, builds the task runner and dispatches the command.
//! The call decides. It starts with an [`Action`] for the bridge to perform;
//! the bridge reports what came of it as an [`Event`], and [`Call::step`]
//! answers with the next action, until the action is to return.

use crate::diagnostic::{failure_line, failure_text, invalid_arguments_line, invalid_arguments_text};
use crate::outcome::{Outcome, OutcomeView};
use vstd::prelude::*;

verus! {

/// The status that tells the caller that the command succeeded.
pub const STATUS_SUCCESS: i32 = 0;

/// The status that tells the caller that the call failed, whatever the reason.
pub const STATUS_FAILURE: i32 = 1;

/// Outside work that the call asks the bridge to do next.
#[derive(Debug, PartialEq, Eq)]
pub enum Action {
    /// Copy the first `count` byte strings of the caller's argument vector.
    ReadArguments { count: usize },
    /// Run the engine's process-wide initialization.
    Initialize,
    /// Build the single-threaded task runner.
    BuildRuntime,
    /// Run the engine's command dispatch on `args` and wait for it to end.
    Dispatch { args: Vec<Vec<u8>> },
    /// Write `diagnostic`, if there is one, as a line to the standard error
    /// stream, and return `status` to the caller.
    Return { status: i32, diagnostic: Option<String> },
}

/// What came of the outside work that the call asked for.
#[derive(Debug, PartialEq, Eq)]
pub enum Event {
    /// The argument vector was copied; these are the byte strings, in order.
    ArgumentsRead(Vec<Vec<u8>>),
    /// The engine's initialization ended.
    Initialized(Outcome),
    /// The attempt to build the task runner ended.
    RuntimeBuilt(Outcome),
    /// The engine's command dispatch ended.
    Dispatched(Outcome),
}

/// The state of one call: what it waits for, or how it ended.
#[derive(Debug, PartialEq, Eq)]
pub enum Call {
    /// Waits for the `count` arguments of the caller.
    AwaitingArguments { count: usize },
    /// Holds the arguments and waits for the engine's initialization.
    AwaitingInit { args: Vec<Vec<u8>> },
    /// Holds the arguments and waits for the task runner.
    AwaitingRuntime { args: Vec<Vec<u8>> },
    /// Has handed the arguments to the engine and waits for the dispatch.
    AwaitingDispatch,
    /// Ended with [`STATUS_SUCCESS`].
    Succeeded,
    /// Ended with [`STATUS_FAILURE`].
    Failed,
}

/// An [`Action`] as a mathematical value.
pub enum ActionView {
    ReadArguments { count: nat },
    Initialize,
    BuildRuntime,
    Dispatch { args: Seq<Seq<u8>> },
    Return { status: int, diagnostic: Option<Seq<char>> },
}

/// An [`Event`] as a mathematical value.
pub enum EventView {
    ArgumentsRead(Seq<Seq<u8>>),
    Initialized(OutcomeView),
    RuntimeBuilt(OutcomeView),
    Dispatched(OutcomeView),
}

/// A [`Call`] as a mathematical value.
pub enum CallView {
    AwaitingArguments { count: nat },
    AwaitingInit { args: Seq<Seq<u8>> },
    AwaitingRuntime { args: Seq<Seq<u8>> },
    AwaitingDispatch,
    Succeeded,
    Failed,
}

impl View for Action {
    type V = ActionView;

    open spec fn view(&self) -> ActionView {
        match *self {
            Action::ReadArguments { count } => ActionView::ReadArguments { count: count as nat },
            Action::Initialize => ActionView::Initialize,
            Action::BuildRuntime => ActionView::BuildRuntime,
            Action::Dispatch { args } => ActionView::Dispatch { args: args.deep_view() },
            Action::Return { status, diagnostic } => ActionView::Return {
                status: status as int,
                diagnostic: diagnostic.deep_view(),
            },
        }
    }
}

impl DeepView for Action {
    type V = ActionView;

    open spec fn deep_view(&self) -> ActionView {
        self@
    }
}

impl View for Event {
    type V = EventView;

    open spec fn view(&self) -> EventView {
        match *self {
            Event::ArgumentsRead(args) => EventView::ArgumentsRead(args.deep_view()),
            Event::Initialized(outcome) => EventView::Initialized(outcome@),
            Event::RuntimeBuilt(outcome) => EventView::RuntimeBuilt(outcome@),
            Event::Dispatched(outcome) => EventView::Dispatched(outcome@),
        }
    }
}

impl View for Call {
    type V = CallView;

    open spec fn view(&self) -> CallView {
        match *self {
            Call::AwaitingArguments { count } => CallView::AwaitingArguments { count: count as nat },
            Call::AwaitingInit { args } => CallView::AwaitingInit { args: args.deep_view() },
            Call::AwaitingRuntime { args } => CallView::AwaitingRuntime { args: args.deep_view() },
            Call::AwaitingDispatch => CallView::AwaitingDispatch,
            Call::Succeeded => CallView::Succeeded,
            Call::Failed => CallView::Failed,
        }
    }
}

/// The end of a call that fails and reports `line`: the final state, and the
/// action that has the line written and the failure status returned.
pub open spec fn failed_with(line: Seq<char>) -> (CallView, ActionView) {
    (
        CallView::Failed,
        ActionView::Return { status: STATUS_FAILURE as int, diagnostic: Some(line) },
    )
}

/// How a call starts. A call with fewer than one argument, or without an
/// argument vector, is turned away at once: it ends in failure with the line
/// for invalid arguments, and asks for nothing else. Any other call asks for
/// its `argc` arguments to be read.
pub open spec fn begin_model(argc: int, argv_is_null: bool) -> (CallView, ActionView) {
    if argc < 1 || argv_is_null {
        failed_with(invalid_arguments_text(argc))
    } else {
        (
            CallView::AwaitingArguments { count: argc as nat },
            ActionView::ReadArguments { count: argc as nat },
        )
    }
}

/// Where a call goes once a piece of the engine's work has ended: on success
/// onward to the state `after` and the action `asked`, on failure to the end,
/// reporting the engine's description.
pub open spec fn settle(outcome: OutcomeView, after: CallView, asked: ActionView) -> (
    CallView,
    Option<ActionView>,
) {
    match outcome {
        OutcomeView::Success => (after, Some(asked)),
        OutcomeView::Failure(description) => {
            let end = failed_with(failure_text(description));
            (end.0, Some(end.1))
        },
    }
}

/// The transition of a call on an event: the next state, and the action that
/// the bridge is to perform next.
///
/// Each state that waits does so for one kind of event; the arguments are
/// awaited in exactly the number asked for. On that event the call moves on:
/// from the arguments to the initialization, from there to the task runner,
/// from there to the dispatch, which gets the arguments exactly as they were
/// read, and from there to a successful return without a diagnostic. The
/// first failure on the way ends the call instead. On any other event, and in
/// a state that has ended, the call stays as it is and asks for nothing.
pub open spec fn next(call: CallView, event: EventView) -> (CallView, Option<ActionView>) {
    match (call, event) {
        (CallView::AwaitingArguments { count }, EventView::ArgumentsRead(args)) => {
            if args.len() == count {
                (CallView::AwaitingInit { args }, Some(ActionView::Initialize))
            } else {
                (call, None)
            }
        },
        (CallView::AwaitingInit { args }, EventView::Initialized(outcome)) => settle(
            outcome,
            CallView::AwaitingRuntime { args },
            ActionView::BuildRuntime,
        ),
        (CallView::AwaitingRuntime { args }, EventView::RuntimeBuilt(outcome)) => settle(
            outcome,
            CallView::AwaitingDispatch,
            ActionView::Dispatch { args },
        ),
        (CallView::AwaitingDispatch, EventView::Dispatched(outcome)) => settle(
            outcome,
            CallView::Succeeded,
            ActionView::Return { status: STATUS_SUCCESS as int, diagnostic: None },
        ),
        _ => (call, None),
    }
}

/// The status that a call has returned: none while it is under way.
pub open spec fn status_of(call: CallView) -> Option<i32> {
    match call {
        CallView::Succeeded => Some(STATUS_SUCCESS),
        CallView::Failed => Some(STATUS_FAILURE),
        _ => None,
    }
}

/// Ends a call in failure, reporting `line`.
fn fail(line: String) -> (end: (Call, Action))
    ensures
        (end.0@, end.1@) == failed_with(line@),
{
    (Call::Failed, Action::Return { status: STATUS_FAILURE, diagnostic: Some(line) })
}

/// Moves a call on once a piece of the engine's work has ended.
fn settled(outcome: Outcome, after: Call, asked: Action) -> (result: (Call, Option<Action>))
    ensures
        (result.0@, result.1.deep_view()) == settle(outcome@, after@, asked@),
{
    match outcome {
        Outcome::Success => (after, Some(asked)),
        Outcome::Failure(description) => {
            let (end, report) = fail(failure_line(description.as_str()));
            (end, Some(report))
        },
    }
}

impl Call {
    /// Starts a call from what the caller passed: the argument count, and
    /// whether the pointer to the argument vector is null. Nothing behind the
    /// pointer is looked at. Returns the call and its first action.
    pub fn begin(argc: i32, argv_is_null: bool) -> (start: (Call, Action))
        ensures
            (start.0@, start.1@) == begin_model(argc as int, argv_is_null),
    {
        if argc < 1 || argv_is_null {
            fail(invalid_arguments_line(argc))
        } else {
            let count: usize = argc as usize;
            (Call::AwaitingArguments { count }, Action::ReadArguments { count })
        }
    }

    /// Takes the call one step further on `event`. Returns the call as it is
    /// after the event, and the action to perform next, if the event was the
    /// one that the call waited for.
    pub fn step(self, event: Event) -> (after: (Call, Option<Action>))
        ensures
            (after.0@, after.1.deep_view()) == next(self@, event@),
    {
        match (self, event) {
            (Call::AwaitingArguments { count }, Event::ArgumentsRead(args)) => {
                if args.len() == count {
                    (Call::AwaitingInit { args }, Some(Action::Initialize))
                } else {
                    (Call::AwaitingArguments { count }, None)
                }
            },
            (Call::AwaitingInit { args }, Event::Initialized(outcome)) => settled(
                outcome,
                Call::AwaitingRuntime { args },
                Action::BuildRuntime,
            ),
            (Call::AwaitingRuntime { args }, Event::RuntimeBuilt(outcome)) => settled(
                outcome,
                Call::AwaitingDispatch,
                Action::Dispatch { args },
            ),
            (Call::AwaitingDispatch, Event::Dispatched(outcome)) => settled(
                outcome,
                Call::Succeeded,
                Action::Return { status: STATUS_SUCCESS, diagnostic: None },
            ),
            (call, _) => (call, None),
        }
    }

    /// The status that the call has returned, if it has ended.
    pub fn status(&self) -> (status: Option<i32>)
        ensures
            status == status_of(self@),
    {
        match self {
            Call::Succeeded => Some(STATUS_SUCCESS),
            Call::Failed => Some(STATUS_FAILURE),
            _ => None,
        }
    }
}

} // verus!
