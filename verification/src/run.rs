//! A whole call, from the first action to the return, and what holds of it.
//!
//! The outside world of a call is what the bridge finds when it performs the
//! call's actions: the byte strings behind the argument vector, and how the
//! engine's initialization, the building of the task runner and the dispatch
//! end. Given a world, the actions of a call are determined; the laws below
//! say which they are.

use crate::call::{begin_model, next, status_of, ActionView, CallView, EventView, STATUS_FAILURE, STATUS_SUCCESS};
use crate::diagnostic::{failure_text, invalid_arguments_text, lines_start_with_tag, tag};
use crate::outcome::OutcomeView;
use vstd::prelude::*;

verus! {

/// What the bridge finds outside while it serves one call.
pub struct World {
    /// The byte strings behind the caller's argument vector, in order, each
    /// without its terminating zero byte.
    pub arguments: Seq<Seq<u8>>,
    /// How the engine's initialization ends.
    pub init: OutcomeView,
    /// How building the task runner ends.
    pub runtime: OutcomeView,
    /// How the engine's command dispatch ends.
    pub dispatch: OutcomeView,
}

/// The event that comes of performing `action` in `world`. Returning to the
/// caller is the last thing a call does; no event comes of it.
pub open spec fn answer(world: World, action: ActionView) -> Option<EventView> {
    match action {
        ActionView::ReadArguments { .. } => Some(EventView::ArgumentsRead(world.arguments)),
        ActionView::Initialize => Some(EventView::Initialized(world.init)),
        ActionView::BuildRuntime => Some(EventView::RuntimeBuilt(world.runtime)),
        ActionView::Dispatch { .. } => Some(EventView::Dispatched(world.dispatch)),
        ActionView::Return { .. } => None,
    }
}

/// The number of events that a call in this state can still take before it
/// has ended.
pub open spec fn remaining(call: CallView) -> nat {
    match call {
        CallView::AwaitingArguments { .. } => 4,
        CallView::AwaitingInit { .. } => 3,
        CallView::AwaitingRuntime { .. } => 2,
        CallView::AwaitingDispatch => 1,
        CallView::Succeeded => 0,
        CallView::Failed => 0,
    }
}

/// The actions that follow, in order, when a call in state `call` has just
/// asked for `asked`: the action itself, then whatever the call asks for on
/// the event that `world` answers with, and so on while the call moves.
pub open spec fn unfold(call: CallView, asked: Option<ActionView>, world: World) -> Seq<ActionView>
    decreases remaining(call),
{
    match asked {
        None => Seq::empty(),
        Some(action) => match answer(world, action) {
            None => seq![action],
            Some(event) => {
                let (after, onward) = next(call, event);
                if remaining(after) < remaining(call) {
                    seq![action] + unfold(after, onward, world)
                } else {
                    seq![action]
                }
            },
        },
    }
}

/// All the actions of one call in `world`, in the order in which the bridge
/// performs them.
pub open spec fn actions(argc: int, argv_is_null: bool, world: World) -> Seq<ActionView> {
    let (call, asked) = begin_model(argc, argv_is_null);
    unfold(call, Some(asked), world)
}

/// The description of the first piece of work that fails in `world`, in the
/// order initialization, task runner, dispatch; none if all three succeed.
pub open spec fn first_failure(world: World) -> Option<Seq<char>> {
    match (world.init, world.runtime, world.dispatch) {
        (OutcomeView::Failure(description), _, _) => Some(description),
        (_, OutcomeView::Failure(description), _) => Some(description),
        (_, _, OutcomeView::Failure(description)) => Some(description),
        _ => None,
    }
}

/// A call is admitted if it names at least one argument and has an argument
/// vector, and the vector holds as many byte strings as the call names.
pub open spec fn well_formed(argc: int, argv_is_null: bool, world: World) -> bool {
    &&& argc >= 1
    &&& !argv_is_null
    &&& world.arguments.len() == argc
}

/// Every step that asks for more work brings the call nearer to its end, and
/// every other step leaves the call as it was. So a call takes at most four
/// events, and `unfold` never stops short of the return.
pub proof fn steps_advance(call: CallView, event: EventView)
    ensures
        next(call, event).1 is Some ==> remaining(next(call, event).0) < remaining(call),
        next(call, event).1 is None ==> next(call, event).0 == call,
{
}

/// A call that has ended takes no event: it stays as it is and asks for
/// nothing, so nothing more is read, run or written on its behalf.
pub proof fn ended_call_stays(call: CallView, event: EventView)
    requires
        status_of(call) is Some,
    ensures
        next(call, event) == (call, None::<ActionView>),
{
}

/// A call with fewer than one argument, or with a null argument vector, does
/// one thing only: it returns the failure status with the line for invalid
/// arguments. It reads no argument and never reaches the engine, whatever
/// the world holds.
pub proof fn invalid_call_is_turned_away(argc: int, argv_is_null: bool, world: World)
    requires
        argc < 1 || argv_is_null,
    ensures
        actions(argc, argv_is_null, world) == seq![
            ActionView::Return {
                status: STATUS_FAILURE as int,
                diagnostic: Some(invalid_arguments_text(argc)),
            },
        ],
        status_of(begin_model(argc, argv_is_null).0) == Some(STATUS_FAILURE),
{
    reveal_with_fuel(unfold, 2);
}

/// When the call is well formed and the engine's initialization, the task
/// runner and the dispatch all succeed, the call reads its arguments, has
/// the engine initialized, the task runner built and the command dispatched,
/// and returns the success status without a diagnostic: nothing is written.
pub proof fn success_is_silent(argc: int, argv_is_null: bool, world: World)
    requires
        well_formed(argc, argv_is_null, world),
        first_failure(world) is None,
    ensures
        actions(argc, argv_is_null, world) == seq![
            ActionView::ReadArguments { count: argc as nat },
            ActionView::Initialize,
            ActionView::BuildRuntime,
            ActionView::Dispatch { args: world.arguments },
            ActionView::Return { status: STATUS_SUCCESS as int, diagnostic: None },
        ],
{
    reveal_with_fuel(unfold, 6);
    let expected = seq![
        ActionView::ReadArguments { count: argc as nat },
        ActionView::Initialize,
        ActionView::BuildRuntime,
        ActionView::Dispatch { args: world.arguments },
        ActionView::Return { status: STATUS_SUCCESS as int, diagnostic: None },
    ];
    assert(actions(argc, argv_is_null, world) =~= expected);
}

/// When the call is well formed and some piece of work fails, the call ends
/// there: work that would have come after the failure is not asked for, and
/// the last action returns the failure status with one line, which is the
/// tag followed by the description of that failure, unchanged.
pub proof fn failure_is_reported(argc: int, argv_is_null: bool, world: World, description: Seq<char>)
    requires
        well_formed(argc, argv_is_null, world),
        first_failure(world) == Some(description),
    ensures
        world.init is Failure ==> actions(argc, argv_is_null, world) == seq![
            ActionView::ReadArguments { count: argc as nat },
            ActionView::Initialize,
            ActionView::Return {
                status: STATUS_FAILURE as int,
                diagnostic: Some(tag() + description),
            },
        ],
        world.init is Success && world.runtime is Failure ==> actions(argc, argv_is_null, world)
            == seq![
            ActionView::ReadArguments { count: argc as nat },
            ActionView::Initialize,
            ActionView::BuildRuntime,
            ActionView::Return {
                status: STATUS_FAILURE as int,
                diagnostic: Some(tag() + description),
            },
        ],
        world.init is Success && world.runtime is Success ==> actions(argc, argv_is_null, world)
            == seq![
            ActionView::ReadArguments { count: argc as nat },
            ActionView::Initialize,
            ActionView::BuildRuntime,
            ActionView::Dispatch { args: world.arguments },
            ActionView::Return {
                status: STATUS_FAILURE as int,
                diagnostic: Some(tag() + description),
            },
        ],
        actions(argc, argv_is_null, world).last() == (ActionView::Return {
            status: STATUS_FAILURE as int,
            diagnostic: Some(tag() + description),
        }),
        tag().len() > 0,
        tag().is_prefix_of(tag() + description),
        (tag() + description).skip(tag().len() as int) == description,
{
    reveal_with_fuel(unfold, 6);
    lines_start_with_tag(argc, description);
    let read = ActionView::ReadArguments { count: argc as nat };
    let report = ActionView::Return {
        status: STATUS_FAILURE as int,
        diagnostic: Some(failure_text(description)),
    };
    if world.init is Failure {
        assert(actions(argc, argv_is_null, world) =~= seq![read, ActionView::Initialize, report]);
    } else if world.runtime is Failure {
        assert(actions(argc, argv_is_null, world) =~= seq![
            read,
            ActionView::Initialize,
            ActionView::BuildRuntime,
            report,
        ]);
    } else {
        assert(actions(argc, argv_is_null, world) =~= seq![
            read,
            ActionView::Initialize,
            ActionView::BuildRuntime,
            ActionView::Dispatch { args: world.arguments },
            report,
        ]);
    }
}

/// Whenever a well-formed call dispatches, the engine gets the byte strings
/// of the argument vector exactly as they were read: as many as the call
/// names, in the same order, every byte in place, whether or not the bytes
/// are text in any encoding. And the call dispatches exactly when the
/// initialization and the task runner succeeded.
pub proof fn engine_receives_arguments_unchanged(argc: int, argv_is_null: bool, world: World)
    requires
        well_formed(argc, argv_is_null, world),
    ensures
        ({
            let all = actions(argc, argv_is_null, world);
            let dispatch = ActionView::Dispatch { args: world.arguments };
            &&& forall|i: int| 0 <= i < all.len() && #[trigger] all[i] is Dispatch ==> all[i] == dispatch
            &&& all.contains(dispatch) <==> world.init is Success && world.runtime is Success
        }),
{
    reveal_with_fuel(unfold, 6);
    let all = actions(argc, argv_is_null, world);
    if world.init is Failure {
        assert(all.len() == 3);
    } else if world.runtime is Failure {
        assert(all.len() == 4);
    } else {
        assert(all.len() == 5);
        assert(all[3] == ActionView::Dispatch { args: world.arguments });
    }
}

} // verus!
