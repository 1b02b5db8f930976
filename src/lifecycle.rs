//! The lifecycle of a webview, `Built -> Running -> Terminated -> Closed`, as
//! a transition function from phase and event to next phase and action.

use vstd::prelude::*;

use crate::error::WebviewError;
use crate::native::LoopResult;

verus! {

/// Where a webview stands in its life.
#[derive(Debug, Clone, Copy, PartialEq, Eq, Structural)]
pub enum Phase {
    /// Built and initialised; the loop has not run yet.
    Built,
    /// The loop has run and goes on.
    Running,
    /// The loop has reported that it ended.
    Terminated,
    /// The owning handle is gone and the native object torn down.
    Closed,
}

/// What happens to a webview.
#[derive(Debug, Clone, Copy, PartialEq, Eq, Structural)]
pub enum Event {
    /// One iteration of the native loop ran and reported this.
    Iteration(LoopResult),
    /// Work was submitted through a dispatch handle.
    Submit,
    /// The owning handle was given up.
    Close,
}

/// What the library does in answer to an event.
#[derive(Debug, Clone, Copy, PartialEq, Eq, Structural)]
pub enum Action {
    /// Nothing beyond the change of phase.
    Nothing,
    /// Hand the submitted work to the native dispatch primitive.
    Dispatch,
    /// Refuse the submitted work with `DispatchFailed`.
    RejectDispatch,
    /// Tear the native object down.
    Teardown,
}

/// The next phase and the action for an event.
pub open spec fn transition(p: Phase, e: Event) -> (Phase, Action) {
    match e {
        Event::Submit => if p == Phase::Closed {
            (p, Action::RejectDispatch)
        } else {
            (p, Action::Dispatch)
        },
        Event::Close => if p == Phase::Closed {
            (p, Action::Nothing)
        } else {
            (Phase::Closed, Action::Teardown)
        },
        Event::Iteration(result) => if p == Phase::Closed {
            (p, Action::Nothing)
        } else if result == LoopResult::Exit {
            (Phase::Terminated, Action::Nothing)
        } else {
            (Phase::Running, Action::Nothing)
        },
    }
}

/// The next phase and the action for an event.
pub fn next(p: Phase, e: Event) -> (r: (Phase, Action))
    ensures
        r == transition(p, e),
{
    match e {
        Event::Submit => if p == Phase::Closed {
            (p, Action::RejectDispatch)
        } else {
            (p, Action::Dispatch)
        },
        Event::Close => if p == Phase::Closed {
            (p, Action::Nothing)
        } else {
            (Phase::Closed, Action::Teardown)
        },
        Event::Iteration(result) => if p == Phase::Closed {
            (p, Action::Nothing)
        } else if result == LoopResult::Exit {
            (Phase::Terminated, Action::Nothing)
        } else {
            (Phase::Running, Action::Nothing)
        },
    }
}

/// The phase after a run of events.
pub open spec fn phase_after(p: Phase, events: Seq<Event>) -> Phase
    decreases events.len(),
{
    if events.len() == 0 {
        p
    } else {
        phase_after(transition(p, events[0]).0, events.drop_first())
    }
}

/// How often a run of events calls for the action `a`.
pub open spec fn count_action(p: Phase, events: Seq<Event>, a: Action) -> nat
    decreases events.len(),
{
    if events.len() == 0 {
        0
    } else {
        let (q, done) = transition(p, events[0]);
        (if done == a {
            1nat
        } else {
            0nat
        }) + count_action(q, events.drop_first(), a)
    }
}

/// How many submissions a run of events holds.
pub open spec fn count_submits(events: Seq<Event>) -> nat
    decreases events.len(),
{
    if events.len() == 0 {
        0
    } else {
        (if events[0] == Event::Submit {
            1nat
        } else {
            0nat
        }) + count_submits(events.drop_first())
    }
}

/// Once closed, a webview stays closed, tears nothing down again, and refuses
/// every submission.
pub proof fn lemma_closed_is_final(events: Seq<Event>)
    ensures
        phase_after(Phase::Closed, events) == Phase::Closed,
        count_action(Phase::Closed, events, Action::Teardown) == 0,
        count_action(Phase::Closed, events, Action::Dispatch) == 0,
        count_action(Phase::Closed, events, Action::RejectDispatch) == count_submits(events),
    decreases events.len(),
{
    if events.len() > 0 {
        lemma_closed_is_final(events.drop_first());
    }
}

/// The native object is torn down exactly once if the events hold a close,
/// and never otherwise, however many submissions (from however many
/// dispatch handles) stand among them.
pub proof fn lemma_teardown_exactly_once(p: Phase, events: Seq<Event>)
    requires
        p != Phase::Closed,
    ensures
        count_action(p, events, Action::Teardown) == if events.contains(Event::Close) {
            1nat
        } else {
            0nat
        },
    decreases events.len(),
{
    if events.len() > 0 {
        let (q, _) = transition(p, events[0]);
        if events[0] == Event::Close {
            lemma_closed_is_final(events.drop_first());
            assert(events.contains(Event::Close));
        } else {
            lemma_teardown_exactly_once(q, events.drop_first());
            assert(events.contains(Event::Close) <==> events.drop_first().contains(Event::Close)) by {
                if events.contains(Event::Close) {
                    let i = choose|i: int| 0 <= i < events.len() && events[i] == Event::Close;
                    assert(events.drop_first()[i - 1] == Event::Close);
                }
                if events.drop_first().contains(Event::Close) {
                    let i = choose|i: int|
                        0 <= i < events.drop_first().len() && events.drop_first()[i] == Event::Close;
                    assert(events[i + 1] == Event::Close);
                }
            }
        }
    }
}

/// Every submission made after the close is refused, and none of them is
/// handed to the native side.
pub proof fn lemma_submit_after_close_fails(p: Phase, before: Seq<Event>, after: Seq<Event>)
    ensures
        phase_after(p, before.push(Event::Close)) == Phase::Closed,
        count_action(phase_after(p, before.push(Event::Close)), after, Action::RejectDispatch)
            == count_submits(after),
        count_action(phase_after(p, before.push(Event::Close)), after, Action::Dispatch) == 0,
    decreases before.len(),
{
    let events = before.push(Event::Close);
    if before.len() == 0 {
        assert(events.drop_first() =~= Seq::<Event>::empty());
        assert(events[0] == Event::Close);
        assert(phase_after(Phase::Closed, events.drop_first()) == Phase::Closed);
    } else {
        assert(events.drop_first() =~= before.drop_first().push(Event::Close));
        assert(events[0] == before[0]);
        lemma_submit_after_close_fails(transition(p, before[0]).0, before.drop_first(), after);
    }
    lemma_closed_is_final(after);
}

/// Every submission made while the webview is not closed is handed to the
/// native side.
pub proof fn lemma_submit_while_open_dispatches(p: Phase)
    requires
        p != Phase::Closed,
    ensures
        transition(p, Event::Submit) == (p, Action::Dispatch),
{
}

/// What a submission gives, knowing whether the owning handle still exists.
pub fn dispatch_outcome(owner_alive: bool) -> (r: Result<(), WebviewError>)
    ensures
        r == if owner_alive {
            Ok(())
        } else {
            Err::<(), WebviewError>(WebviewError::DispatchFailed)
        },
{
    if owner_alive {
        Ok(())
    } else {
        Err(WebviewError::DispatchFailed)
    }
}

} // verus!
