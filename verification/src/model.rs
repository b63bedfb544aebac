//! The supervisor as a state machine over mathematical values.
//!
//! Every exit path of the application and every event of the worker is one
//! step of this machine. A step is taken under exclusive access to the
//! supervisor, so whatever races on several threads reaches the machine as
//! some sequence of steps, and what holds of every sequence holds of every
//! race.

use vstd::prelude::*;
use crate::action::{ActionView, SidecarPayloadView};
use crate::event::{Hook, HostEventView, SidecarEventView};
use crate::log::{worker_failure_text, LogRecordView};

verus! {

/// Where the application stands with its worker.
#[derive(Clone, Copy, Debug, PartialEq, Eq)]
pub enum Phase {
    /// The launch has not been decided yet.
    NotStarted,
    /// The worker runs, and its handle is in the slot.
    Running,
    /// The worker is given up: it failed to start, it failed or ended, or
    /// an exit path of the application took its handle. Nothing leads back.
    ShuttingDown,
}

/// The supervisor's state: the phase, and what the process slot holds.
pub struct State<H> {
    pub phase: Phase,
    pub slot: Option<H>,
}

/// A state together with the actions that led to it.
pub struct Effect<H> {
    pub next: State<H>,
    pub actions: Seq<ActionView<H>>,
}

impl<H> State<H> {
    /// A handle is in the slot exactly while the worker runs.
    pub open spec fn wf(self) -> bool {
        self.phase is Running <==> self.slot is Some
    }

    /// The state after the slot was read and cleared.
    pub open spec fn emptied(self) -> State<H> {
        State {
            phase: if self.phase is Running {
                Phase::ShuttingDown
            } else {
                self.phase
            },
            slot: None,
        }
    }
}

/// The status with which the application ends when a window closes.
pub const STATUS_CLOSED: i32 = 0;

/// The status with which the application ends when its worker is lost.
pub const STATUS_WORKER_LOST: i32 = 1;

/// The state at application startup.
pub open spec fn initial<H>() -> State<H> {
    State { phase: Phase::NotStarted, slot: None }
}

/// The launch is decided. With a handle the worker runs, and the relay of
/// its events starts. With an error the application ends at once.
pub open spec fn launch<H>(outcome: Result<H, Seq<char>>) -> Effect<H> {
    match outcome {
        Ok(handle) => Effect {
            next: State { phase: Phase::Running, slot: Some(handle) },
            actions: seq![ActionView::StartRelay],
        },
        Err(message) => Effect {
            next: State { phase: Phase::ShuttingDown, slot: None },
            actions: seq![
                ActionView::Log(LogRecordView::SpawnFailed(message)),
                ActionView::Exit(STATUS_WORKER_LOST),
            ],
        },
    }
}

/// What is done with the handle that was taken from the slot: with nothing
/// taken, nothing.
pub open spec fn terminate<H>(taken: Option<H>) -> Seq<ActionView<H>> {
    match taken {
        Some(handle) => seq![ActionView::Terminate(handle)],
        None => seq![],
    }
}

/// The end of the worker's stream, with or without a `Terminated` event:
/// while a handle is in the slot, it is taken and handed to termination, and
/// the application ends. With an empty slot a shutdown is under way already,
/// and nothing is done.
pub open spec fn stream_closed<H>(s: State<H>) -> Effect<H> {
    match s.slot {
        Some(handle) => Effect {
            next: s.emptied(),
            actions: seq![
                ActionView::Log(LogRecordView::WorkerTerminated),
                ActionView::Terminate(handle),
                ActionView::Exit(STATUS_WORKER_LOST),
            ],
        },
        None => Effect { next: s, actions: seq![] },
    }
}

/// One event of the worker's stream. Events count only while a handle is in
/// the slot. A line is logged. An error is logged, then told to the user
/// interface, then the worker is given up and the application ends. The end
/// of the worker is the end of its stream, whatever the status.
pub open spec fn relay<H>(s: State<H>, event: SidecarEventView) -> Effect<H> {
    match s.slot {
        Some(handle) => match event {
            SidecarEventView::StandardOutputLine(line) => Effect {
                next: s,
                actions: seq![ActionView::Log(LogRecordView::WorkerOutput(line))],
            },
            SidecarEventView::StandardErrorLine(line) => Effect {
                next: s,
                actions: seq![ActionView::Log(LogRecordView::WorkerErrorOutput(line))],
            },
            SidecarEventView::LaunchError(message) => Effect {
                next: s.emptied(),
                actions: seq![
                    ActionView::Log(LogRecordView::WorkerFailed(message)),
                    ActionView::Notify(
                        SidecarPayloadView { message: worker_failure_text(message) },
                    ),
                    ActionView::Terminate(handle),
                    ActionView::Exit(STATUS_WORKER_LOST),
                ],
            },
            SidecarEventView::Terminated(_) => stream_closed(s),
        },
        None => Effect { next: s, actions: seq![] },
    }
}

/// What a hook does before it looks at the slot.
pub open spec fn hook_opening<H>(hook: Hook) -> Seq<ActionView<H>> {
    match hook {
        Hook::CloseRequested => seq![],
        Hook::Destroyed => seq![],
        Hook::ExitRequested => seq![ActionView::Log(LogRecordView::ExitRequested)],
        Hook::Restart => seq![ActionView::Log(LogRecordView::RestartRequested)],
    }
}

/// The record that a hook logs once it has asked the worker to terminate.
pub open spec fn hook_note(hook: Hook) -> LogRecordView {
    match hook {
        Hook::CloseRequested => LogRecordView::Killed,
        Hook::Destroyed => LogRecordView::Killed,
        Hook::ExitRequested => LogRecordView::KilledOnRestart,
        Hook::Restart => LogRecordView::KilledOnRestart,
    }
}

/// The cleanup that every hook makes: the handle that the slot held, if
/// any, is handed to termination, and that is logged.
pub open spec fn hook_cleanup<H>(taken: Option<H>, hook: Hook) -> Seq<ActionView<H>> {
    match taken {
        Some(handle) => seq![ActionView::Terminate(handle), ActionView::Log(hook_note(hook))],
        None => seq![],
    }
}

/// What a hook does for itself once the cleanup is done, whether or not
/// there was anything to clean up: a closing window is kept from closing by
/// itself and the application ends, a destroyed window ends the application,
/// a requested exit is let through, and a restart is carried out.
pub open spec fn hook_follow_up<H>(hook: Hook) -> Seq<ActionView<H>> {
    match hook {
        Hook::CloseRequested => seq![ActionView::PreventClose, ActionView::Exit(STATUS_CLOSED)],
        Hook::Destroyed => seq![ActionView::Exit(STATUS_CLOSED)],
        Hook::ExitRequested => seq![],
        Hook::Restart => seq![ActionView::Restart],
    }
}

/// An exit path of the application: the slot is read and cleared, what it
/// held is cleaned up, and only then the hook does what it is there for.
pub open spec fn hook<H>(s: State<H>, hook: Hook) -> Effect<H> {
    Effect {
        next: s.emptied(),
        actions: hook_opening(hook) + hook_cleanup(s.slot, hook) + hook_follow_up(hook),
    }
}

/// One step of the supervisor once the launch is decided.
pub open spec fn step<H>(s: State<H>, event: HostEventView) -> Effect<H> {
    match event {
        HostEventView::Worker(event) => relay(s, event),
        HostEventView::StreamClosed => stream_closed(s),
        HostEventView::Hook(h) => hook(s, h),
    }
}

/// The state that `events` lead to from `s`, and every action on the way, in
/// order.
pub open spec fn run_from<H>(s: State<H>, events: Seq<HostEventView>) -> Effect<H>
    decreases events.len(),
{
    if events.len() == 0 {
        Effect { next: s, actions: seq![] }
    } else {
        let first = step(s, events[0]);
        let rest = run_from(first.next, events.skip(1));
        Effect { next: rest.next, actions: first.actions + rest.actions }
    }
}

/// A whole life of the application: the launch is decided at startup, and
/// then `events` arrive.
pub open spec fn run<H>(outcome: Result<H, Seq<char>>, events: Seq<HostEventView>) -> Effect<H> {
    let started = launch(outcome);
    let rest = run_from(started.next, events);
    Effect { next: rest.next, actions: started.actions + rest.actions }
}

} // verus!
