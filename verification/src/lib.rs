//! Lifecycle supervision for a single background worker process that lives
//! beside a desktop window.
//!
//! The application starts one worker at startup, relays what the worker
//! reports, and makes sure on every way out that the worker does not outlive
//! it. The [`Supervisor`] decides; the host performs the [`Action`]s that it
//! hands out, in their order, and reports back what happens.

use vstd::prelude::*;

pub mod action;
pub mod commands;
pub mod event;
pub mod laws;
pub mod log;
pub mod model;
pub mod slot;
pub mod supervisor;
pub mod text;
pub mod updates;

pub use action::{Action, SidecarPayload, SIDECAR_ERROR_EVENT};
pub use commands::{graceful_restart, greet};
pub use event::{ExitStatus, Hook, HostEvent, SidecarEvent};
pub use log::{LogRecord, LogStream};
pub use model::{Phase, STATUS_CLOSED, STATUS_WORKER_LOST};
pub use slot::ProcessSlot;
pub use supervisor::{Supervisor, WORKER_PROGRAM};

verus! {

/// The events from position `from` on lead where the first of them leads
/// and then the others.
proof fn lemma_run_from_unfolds<H>(
    s: model::State<H>,
    events: Seq<event::HostEventView>,
    from: int,
)
    requires
        0 <= from < events.len(),
    ensures
        model::run_from(s, events.skip(from)).actions == model::step(s, events[from]).actions
            + model::run_from(model::step(s, events[from]).next, events.skip(from + 1)).actions,
{
    assert(events.skip(from).skip(1) =~= events.skip(from + 1));
}

/// A whole life of the application, from the outcome of the launch through
/// every event that reaches it: all that the host is asked to do, in order.
pub fn run<H>(outcome: Result<H, String>, events: Vec<HostEvent>) -> (actions: Vec<Action<H>>)
    ensures
        actions.deep_view() == model::run(
            supervisor::outcome_view(outcome),
            events.deep_view(),
        ).actions,
{
    let ghost all = events.deep_view();
    let ghost started = model::launch(supervisor::outcome_view(outcome));
    let mut supervisor: Supervisor<H> = Supervisor::new();
    let mut actions = supervisor.launch(outcome);
    assert(all.skip(0) =~= all);
    for event in it: events
        invariant
            all == events.deep_view(),
            actions.deep_view() + model::run_from(
                supervisor@,
                all.skip(it.index() as int),
            ).actions == started.actions + model::run_from(started.next, all).actions,
    {
        let ghost before = actions.deep_view();
        let ghost state = supervisor@;
        let ghost at = it.index() as int;
        let mut more = supervisor.step(event);
        proof {
            lemma_run_from_unfolds(state, all, at);
        }
        actions.append(&mut more);
        assert(actions.deep_view() =~= before + model::step(state, all[at]).actions);
    }
    actions
}

} // verus!
