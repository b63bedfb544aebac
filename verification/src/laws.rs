//! What holds of every run of the supervisor, proved over the state machine
//! of [`crate::model`].

use vstd::prelude::*;
use crate::action::ActionView;
use crate::event::{ExitStatus, Hook, HostEventView, SidecarEventView};
use crate::model::{
    hook, hook_cleanup, hook_follow_up, hook_opening, initial, launch, relay, run, run_from,
    step, stream_closed, Effect, State, STATUS_WORKER_LOST,
};

verus! {

/// How often `actions` ask for a process to terminate.
pub open spec fn terminations<H>(actions: Seq<ActionView<H>>) -> nat
    decreases actions.len(),
{
    if actions.len() == 0 {
        0
    } else {
        terminations(actions.drop_last()) + if actions.last() is Terminate {
            1nat
        } else {
            0nat
        }
    }
}

/// How often `actions` end the application.
pub open spec fn exits<H>(actions: Seq<ActionView<H>>) -> nat
    decreases actions.len(),
{
    if actions.len() == 0 {
        0
    } else {
        exits(actions.drop_last()) + if actions.last() is Exit {
            1nat
        } else {
            0nat
        }
    }
}

/// Whether the action ends this run of the application: it exits, or it
/// restarts.
pub open spec fn leaves<H>(action: ActionView<H>) -> bool {
    action is Exit || action is Restart
}

/// The hooks as the events that they are to the supervisor.
pub open spec fn hook_events(hooks: Seq<Hook>) -> Seq<HostEventView> {
    Seq::new(hooks.len(), |i: int| HostEventView::Hook(hooks[i]))
}

/// Whether the event is the end of the worker's stream, said or unsaid.
pub open spec fn ends_stream(event: HostEventView) -> bool {
    event is StreamClosed || (event matches HostEventView::Worker(e) && e is Terminated)
}

/// The requests to terminate in two lists, one after the other, are those
/// of the one and those of the other.
pub proof fn lemma_terminations_add<H>(first: Seq<ActionView<H>>, second: Seq<ActionView<H>>)
    ensures
        terminations(first + second) == terminations(first) + terminations(second),
    decreases second.len(),
{
    if second.len() == 0 {
        assert(first + second =~= first);
    } else {
        lemma_terminations_add(first, second.drop_last());
        assert((first + second).drop_last() =~= first + second.drop_last());
    }
}

/// The requests to terminate in a list of up to four actions, one by one.
proof fn lemma_terminations_of_few<H>(actions: Seq<ActionView<H>>)
    requires
        actions.len() <= 4,
    ensures
        terminations(actions) == (if actions.len() > 0 && actions[0] is Terminate {
            1nat
        } else {
            0nat
        }) + (if actions.len() > 1 && actions[1] is Terminate {
            1nat
        } else {
            0nat
        }) + (if actions.len() > 2 && actions[2] is Terminate {
            1nat
        } else {
            0nat
        }) + (if actions.len() > 3 && actions[3] is Terminate {
            1nat
        } else {
            0nat
        }),
    decreases actions.len(),
{
    if actions.len() > 0 {
        lemma_terminations_of_few(actions.drop_last());
    }
}

/// The exits in two lists, one after the other, are those of the one and
/// those of the other.
pub proof fn lemma_exits_add<H>(first: Seq<ActionView<H>>, second: Seq<ActionView<H>>)
    ensures
        exits(first + second) == exits(first) + exits(second),
    decreases second.len(),
{
    if second.len() == 0 {
        assert(first + second =~= first);
    } else {
        lemma_exits_add(first, second.drop_last());
        assert((first + second).drop_last() =~= first + second.drop_last());
    }
}

/// The exits in a list of up to four actions, one by one.
proof fn lemma_exits_of_few<H>(actions: Seq<ActionView<H>>)
    requires
        actions.len() <= 4,
    ensures
        exits(actions) == (if actions.len() > 0 && actions[0] is Exit {
            1nat
        } else {
            0nat
        }) + (if actions.len() > 1 && actions[1] is Exit {
            1nat
        } else {
            0nat
        }) + (if actions.len() > 2 && actions[2] is Exit {
            1nat
        } else {
            0nat
        }) + (if actions.len() > 3 && actions[3] is Exit {
            1nat
        } else {
            0nat
        }),
    decreases actions.len(),
{
    if actions.len() > 0 {
        lemma_exits_of_few(actions.drop_last());
    }
}

/// A hook asks for a termination exactly when it finds a handle in the
/// slot, and then for the process behind that handle.
pub proof fn lemma_hook_terminates_what_it_takes<H>(s: State<H>, h: Hook)
    ensures
        terminations(hook(s, h).actions) == if s.slot is Some {
            1nat
        } else {
            0nat
        },
        forall|i: int|
            0 <= i < hook(s, h).actions.len() && hook(s, h).actions[i] is Terminate
                ==> s.slot == Some(#[trigger] hook(s, h).actions[i]->Terminate_0),
{
    let opening = hook_opening::<H>(h);
    let cleanup = hook_cleanup(s.slot, h);
    let follow_up = hook_follow_up::<H>(h);
    lemma_terminations_of_few(opening);
    lemma_terminations_of_few(cleanup);
    lemma_terminations_of_few(follow_up);
    lemma_terminations_add(opening, cleanup);
    lemma_terminations_add(opening + cleanup, follow_up);
}

/// A worker event asks for a termination exactly when it is fatal and finds
/// a handle in the slot, and then for the process behind that handle.
pub proof fn lemma_relay_terminates_what_it_takes<H>(s: State<H>, event: SidecarEventView)
    ensures
        terminations(relay(s, event).actions) == if s.slot is Some && relay(s, event).next.slot
            is None {
            1nat
        } else {
            0nat
        },
        forall|i: int|
            0 <= i < relay(s, event).actions.len() && relay(s, event).actions[i] is Terminate
                ==> s.slot == Some(#[trigger] relay(s, event).actions[i]->Terminate_0),
{
    lemma_terminations_of_few(relay(s, event).actions);
}

/// Any step asks for a termination exactly when it empties a slot that held
/// a handle, and then for the process behind that handle.
pub proof fn lemma_step_terminates_what_it_takes<H>(s: State<H>, event: HostEventView)
    ensures
        terminations(step(s, event).actions) == if s.slot is Some && step(s, event).next.slot
            is None {
            1nat
        } else {
            0nat
        },
        forall|i: int|
            0 <= i < step(s, event).actions.len() && step(s, event).actions[i] is Terminate
                ==> s.slot == Some(#[trigger] step(s, event).actions[i]->Terminate_0),
        step(s, event).next == s || step(s, event).next == s.emptied(),
        s.wf() ==> step(s, event).next.wf(),
{
    match event {
        HostEventView::Worker(e) => {
            lemma_relay_terminates_what_it_takes(s, e);
        },
        HostEventView::StreamClosed => {
            let status = ExitStatus { code: None, signal: None };
            lemma_relay_terminates_what_it_takes(s, SidecarEventView::Terminated(status));
        },
        HostEventView::Hook(h) => {
            lemma_hook_terminates_what_it_takes(s, h);
        },
    }
}

/// The slot holds a handle exactly while the worker runs: at startup, after
/// the launch, and after every step.
pub proof fn lemma_slot_is_full_while_running<H>(
    s: State<H>,
    outcome: Result<H, Seq<char>>,
    event: HostEventView,
)
    requires
        s.wf(),
    ensures
        initial::<H>().wf(),
        launch(outcome).next.wf(),
        step(s, event).next.wf(),
{
    lemma_step_terminates_what_it_takes(s, event);
}

/// Whatever reaches the supervisor, in whatever order and however often:
/// the handle in the slot stays there untouched, or it is taken once and
/// handed to termination once. No other handle is ever terminated, and the
/// slot is never filled again.
pub proof fn lemma_worker_is_terminated_at_most_once<H>(s: State<H>, events: Seq<HostEventView>)
    requires
        s.wf(),
    ensures
        run_from(s, events).next.wf(),
        terminations(run_from(s, events).actions) <= 1,
        terminations(run_from(s, events).actions) == 0 ==> run_from(s, events).next == s,
        terminations(run_from(s, events).actions) == 1 ==> s.slot is Some && run_from(
            s,
            events,
        ).next == s.emptied(),
        forall|i: int|
            0 <= i < run_from(s, events).actions.len() && run_from(s, events).actions[i]
                is Terminate ==> s.slot == Some(
                #[trigger] run_from(s, events).actions[i]->Terminate_0,
            ),
    decreases events.len(),
{
    if events.len() > 0 {
        let first = step(s, events[0]);
        let rest = run_from(first.next, events.skip(1));
        lemma_step_terminates_what_it_takes(s, events[0]);
        lemma_worker_is_terminated_at_most_once(first.next, events.skip(1));
        lemma_terminations_add(first.actions, rest.actions);
        assert forall|i: int|
            0 <= i < run_from(s, events).actions.len() && run_from(s, events).actions[i]
                is Terminate implies s.slot == Some(
            #[trigger] run_from(s, events).actions[i]->Terminate_0,
        ) by {
            if i >= first.actions.len() {
                assert(run_from(s, events).actions[i] == rest.actions[i - first.actions.len()]);
            } else {
                assert(run_from(s, events).actions[i] == first.actions[i]);
            }
        }
    }
}

/// Over a whole life of the application, whatever happens in it: a worker
/// that was started is handed to termination at most once, it is the only
/// one ever terminated, and with a failed launch nothing is terminated.
pub proof fn lemma_whole_run_terminates_at_most_once<H>(
    outcome: Result<H, Seq<char>>,
    events: Seq<HostEventView>,
)
    ensures
        terminations(run(outcome, events).actions) <= 1,
        outcome is Err ==> terminations(run(outcome, events).actions) == 0,
        forall|i: int|
            0 <= i < run(outcome, events).actions.len() && run(outcome, events).actions[i]
                is Terminate ==> outcome == Ok::<H, Seq<char>>(
                #[trigger] run(outcome, events).actions[i]->Terminate_0,
            ),
{
    let started = launch(outcome);
    let rest = run_from(started.next, events);
    lemma_terminations_of_few(started.actions);
    lemma_worker_is_terminated_at_most_once(started.next, events);
    lemma_terminations_add(started.actions, rest.actions);
    assert forall|i: int|
        0 <= i < run(outcome, events).actions.len() && run(outcome, events).actions[i]
            is Terminate implies outcome == Ok::<H, Seq<char>>(
        #[trigger] run(outcome, events).actions[i]->Terminate_0,
    ) by {
        if i >= started.actions.len() {
            assert(run(outcome, events).actions[i] == rest.actions[i - started.actions.len()]);
        } else {
            assert(run(outcome, events).actions[i] == started.actions[i]);
        }
    }
}

/// Once the worker is given up, nothing changes the supervisor any more.
pub proof fn lemma_shutting_down_is_final<H>(s: State<H>, events: Seq<HostEventView>)
    requires
        s.wf(),
        s.phase is ShuttingDown,
    ensures
        run_from(s, events).next == s,
        terminations(run_from(s, events).actions) == 0,
{
    lemma_worker_is_terminated_at_most_once(s, events);
}

/// Over the hooks alone, in any order and with any repetition: the worker
/// is terminated exactly once if it runs and a hook fires, and never
/// otherwise.
pub proof fn lemma_hooks_terminate_worker_once<H>(s: State<H>, hooks: Seq<Hook>)
    requires
        s.wf(),
    ensures
        terminations(run_from(s, hook_events(hooks)).actions) == if s.phase is Running
            && hooks.len() > 0 {
            1nat
        } else {
            0nat
        },
{
    let events = hook_events(hooks);
    lemma_worker_is_terminated_at_most_once(s, events);
    if hooks.len() > 0 {
        let first = step(s, events[0]);
        let rest = run_from(first.next, events.skip(1));
        lemma_step_terminates_what_it_takes(s, events[0]);
        lemma_worker_is_terminated_at_most_once(first.next, events.skip(1));
        lemma_terminations_add(first.actions, rest.actions);
    }
}

/// A second hook finds the slot empty, whichever hook emptied it: it takes
/// nothing, terminates nothing and leaves the supervisor as it is. All that
/// it still does is what it is there for.
pub proof fn lemma_second_hook_takes_nothing<H>(s: State<H>, first: Hook, second: Hook)
    ensures
        hook(s, first).next.slot is None,
        hook(hook(s, first).next, second).next == hook(s, first).next,
        hook(hook(s, first).next, second).actions == hook_opening::<H>(second) + hook_follow_up::<
            H,
        >(second),
        terminations(hook(hook(s, first).next, second).actions) == 0,
{
    let after = hook(s, first).next;
    lemma_hook_terminates_what_it_takes(after, second);
    assert(hook_cleanup(after.slot, second) =~= Seq::<ActionView<H>>::empty());
    assert(hook(after, second).actions =~= hook_opening::<H>(second) + hook_follow_up::<H>(
        second,
    ));
}

/// The end of the worker, and the end of its stream without a word, are one
/// and the same to the supervisor, whatever the status. With a handle in
/// the slot the application is shut down once: the handle is taken and
/// terminated, and the application exits with a status that is not zero.
/// With an empty slot nothing is done.
pub proof fn lemma_stream_end_shuts_down_once<H>(s: State<H>, status: ExitStatus)
    ensures
        relay(s, SidecarEventView::Terminated(status)) == stream_closed(s),
        s.slot is Some ==> {
            &&& exits(stream_closed(s).actions) == 1
            &&& terminations(stream_closed(s).actions) == 1
            &&& stream_closed(s).actions.last() == ActionView::<H>::Exit(STATUS_WORKER_LOST)
            &&& STATUS_WORKER_LOST != 0
            &&& stream_closed(s).next.slot is None
        },
        s.slot is None ==> stream_closed(s) == (Effect { next: s, actions: seq![] }),
{
    let actions = stream_closed(s).actions;
    lemma_terminations_of_few(actions);
    lemma_exits_of_few(actions);
}

/// When a hook ran first, the end of the worker's stream does nothing: the
/// shutdown is under way and is not made twice.
pub proof fn lemma_stream_end_after_hook_does_nothing<H>(s: State<H>, h: Hook)
    ensures
        stream_closed(hook(s, h).next) == (Effect { next: hook(s, h).next, actions: seq![] }),
{
}

/// However often the worker's stream is reported to have ended, the
/// application is shut down for it once if a handle is in the slot, and not
/// at all if the slot is empty.
pub proof fn lemma_stream_ends_shut_down_once<H>(s: State<H>, events: Seq<HostEventView>)
    requires
        forall|i: int| 0 <= i < events.len() ==> ends_stream(#[trigger] events[i]),
    ensures
        exits(run_from(s, events).actions) == if s.slot is Some && events.len() > 0 {
            1nat
        } else {
            0nat
        },
        events.len() > 0 ==> run_from(s, events).next.slot is None,
    decreases events.len(),
{
    if events.len() > 0 {
        let first = step(s, events[0]);
        let rest = run_from(first.next, events.skip(1));
        let status = ExitStatus { code: None, signal: None };
        assert(ends_stream(events[0]));
        assert(first == stream_closed(s));
        lemma_stream_end_shuts_down_once(s, status);
        assert forall|i: int| 0 <= i < events.skip(1).len() implies ends_stream(
            #[trigger] events.skip(1)[i],
        ) by {
            assert(events.skip(1)[i] == events[i + 1]);
        }
        lemma_stream_ends_shut_down_once(first.next, events.skip(1));
        lemma_exits_add(first.actions, rest.actions);
    }
}

/// A failed launch ends the application with a status that is not zero,
/// and the relay never starts: it is not asked for, whatever happens later,
/// and no event of a worker's stream is acted on.
pub proof fn lemma_failed_launch_ends_application<H>(
    message: Seq<char>,
    events: Seq<HostEventView>,
)
    ensures
        launch::<H>(Err(message)).actions.last() == ActionView::<H>::Exit(STATUS_WORKER_LOST),
        STATUS_WORKER_LOST != 0,
        launch::<H>(Err(message)).next.phase is ShuttingDown,
        run_from(launch::<H>(Err(message)).next, events).next == launch::<H>(Err(message)).next,
        !run::<H>(Err(message), events).actions.contains(ActionView::StartRelay),
        forall|i: int|
            0 <= i < events.len() && !(#[trigger] events[i] is Hook) ==> step(
                launch::<H>(Err(message)).next,
                events[i],
            ).actions == Seq::<ActionView<H>>::empty(),
{
    let started = launch::<H>(Err(message));
    lemma_shutting_down_is_final(started.next, events);
    lemma_relay_is_started_by_launch_alone(started.next, events);
    let all = run::<H>(Err(message), events).actions;
    let rest = run_from(started.next, events).actions;
    assert forall|i: int| 0 <= i < all.len() implies all[i] != ActionView::<H>::StartRelay by {
        if i >= started.actions.len() {
            assert(all[i] == rest[i - started.actions.len()]);
        }
    }
}

/// No step asks for the relay to start: only a launch that succeeded does.
pub proof fn lemma_relay_is_started_by_launch_alone<H>(s: State<H>, events: Seq<HostEventView>)
    ensures
        forall|i: int|
            0 <= i < run_from(s, events).actions.len() ==> !(#[trigger] run_from(
                s,
                events,
            ).actions[i] is StartRelay),
    decreases events.len(),
{
    if events.len() > 0 {
        let first = step(s, events[0]);
        let rest = run_from(first.next, events.skip(1));
        lemma_relay_is_started_by_launch_alone(first.next, events.skip(1));
        assert forall|i: int| 0 <= i < run_from(s, events).actions.len() implies !(
        #[trigger] run_from(s, events).actions[i] is StartRelay) by {
            if i >= first.actions.len() {
                assert(run_from(s, events).actions[i] == rest.actions[i - first.actions.len()]);
            } else {
                assert(run_from(s, events).actions[i] == first.actions[i]);
            }
        }
    }
}

/// The worker does not outlive the application: a step that ends this run
/// of the application does so with its last action, leaves the slot empty,
/// and has asked before for the termination of the worker that the slot
/// held.
pub proof fn lemma_worker_does_not_outlive_application<H>(s: State<H>, event: HostEventView)
    ensures
        forall|i: int|
            0 <= i < step(s, event).actions.len() && leaves(#[trigger] step(s, event).actions[i])
                ==> {
                &&& i == step(s, event).actions.len() - 1
                &&& step(s, event).next.slot is None
                &&& s.slot matches Some(handle) ==> exists|j: int|
                    0 <= j < i && #[trigger] step(s, event).actions[j] == ActionView::Terminate(
                        handle,
                    )
            },
{
    let actions = step(s, event).actions;
    assert forall|i: int| 0 <= i < actions.len() && leaves(#[trigger] actions[i]) implies {
        &&& i == actions.len() - 1
        &&& step(s, event).next.slot is None
        &&& s.slot matches Some(handle) ==> exists|j: int|
            0 <= j < i && #[trigger] actions[j] == ActionView::Terminate(handle)
    } by {
        match s.slot {
            Some(handle) => {
                match event {
                    HostEventView::Hook(h) => {
                        let at = hook_opening::<H>(h).len() as int;
                        assert(actions[at] == ActionView::Terminate(handle));
                    },
                    HostEventView::StreamClosed => {
                        assert(actions[1] == ActionView::Terminate(handle));
                    },
                    HostEventView::Worker(e) => {
                        if e is LaunchError {
                            assert(actions[2] == ActionView::Terminate(handle));
                        } else if e is Terminated {
                            assert(actions[1] == ActionView::Terminate(handle));
                        }
                    },
                }
            },
            None => {},
        }
    }
}

} // verus!
