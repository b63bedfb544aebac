//! The supervisor that the application keeps behind its lock.

use vstd::prelude::*;
use crate::action::{Action, SidecarPayload};
use crate::event::{Hook, HostEvent, SidecarEvent};
use crate::log::{worker_failure_line, LogRecord};
use crate::model;
use crate::model::{Phase, State, STATUS_CLOSED, STATUS_WORKER_LOST};
use crate::slot::ProcessSlot;

verus! {

/// The name under which the worker's executable is bundled with the
/// application. It is started without arguments.
pub const WORKER_PROGRAM: &'static str = "server";

/// The outcome of the launch as a mathematical value.
pub open spec fn outcome_view<H>(outcome: Result<H, String>) -> Result<H, Seq<char>> {
    match outcome {
        Ok(handle) => Ok(handle),
        Err(message) => Err(message@),
    }
}

/// Watches over one worker process for the lifetime of the application.
///
/// Every method that changes the supervisor is one step of the state machine
/// in [`crate::model`]: it returns the actions of that step, in the order in
/// which the host has to perform them.
pub struct Supervisor<H> {
    slot: ProcessSlot<H>,
    launched: bool,
}

impl<H> View for Supervisor<H> {
    type V = State<H>;

    closed spec fn view(&self) -> State<H> {
        State {
            phase: if self.slot@ is Some {
                Phase::Running
            } else if self.launched {
                Phase::ShuttingDown
            } else {
                Phase::NotStarted
            },
            slot: self.slot@,
        }
    }
}

impl<H> Supervisor<H> {
    /// A handle is tracked only once the launch is decided.
    #[verifier::type_invariant]
    spec fn launched_if_tracking(self) -> bool {
        self.slot@ is Some ==> self.launched
    }

    /// A handle is in the slot exactly while the worker runs, whatever the
    /// supervisor has been through.
    pub proof fn lemma_slot_is_full_while_running(self)
        ensures
            self@.wf(),
    {
    }

    /// The supervisor at application startup: nothing launched, the slot
    /// empty.
    pub fn new() -> (supervisor: Self)
        ensures
            supervisor@ == model::initial::<H>(),
    {
        Supervisor { slot: ProcessSlot::new(), launched: false }
    }

    /// Where the application stands with its worker.
    pub fn phase(&self) -> (phase: Phase)
        ensures
            phase == self@.phase,
            self@.wf(),
    {
        if !self.slot.is_empty() {
            Phase::Running
        } else if self.launched {
            Phase::ShuttingDown
        } else {
            Phase::NotStarted
        }
    }

    /// Whether the worker runs, which is as long as its events count.
    pub fn is_running(&self) -> (running: bool)
        ensures
            running == (self@.phase is Running),
            running == (self@.slot is Some),
    {
        !self.slot.is_empty()
    }

    /// Records how the launch went, once, at startup. With a handle the
    /// worker is tracked from here on and its relay is asked for. With an
    /// error the failure is logged and the application ends with a status
    /// that is not zero: there is no second attempt.
    pub fn launch(&mut self, outcome: Result<H, String>) -> (actions: Vec<Action<H>>)
        requires
            old(self)@.phase is NotStarted,
        ensures
            final(self)@ == model::launch(outcome_view(outcome)).next,
            actions.deep_view() == model::launch(outcome_view(outcome)).actions,
    {
        let mut actions: Vec<Action<H>> = Vec::new();
        self.launched = true;
        match outcome {
            Ok(handle) => {
                let _ = self.slot.store(handle);
                actions.push(Action::StartRelay);
            },
            Err(message) => {
                actions.push(Action::Log(LogRecord::SpawnFailed(message)));
                actions.push(Action::Exit(STATUS_WORKER_LOST));
            },
        }
        assert(actions.deep_view() =~= model::launch(outcome_view(outcome)).actions);
        actions
    }

    /// The worker's stream ended without a word. This is taken as the end of
    /// the worker itself.
    pub fn stream_closed(&mut self) -> (actions: Vec<Action<H>>)
        ensures
            final(self)@ == model::stream_closed(old(self)@).next,
            actions.deep_view() == model::stream_closed(old(self)@).actions,
    {
        proof {
            use_type_invariant(&*self);
        }
        let mut actions: Vec<Action<H>> = Vec::new();
        match self.slot.take() {
            Some(handle) => {
                actions.push(Action::Log(LogRecord::WorkerTerminated));
                actions.push(Action::Terminate(handle));
                actions.push(Action::Exit(STATUS_WORKER_LOST));
            },
            None => {},
        }
        assert(actions.deep_view() =~= model::stream_closed(old(self)@).actions);
        actions
    }

    /// The next event of the worker's stream. Once the slot is empty the
    /// events do not count any more.
    pub fn relay(&mut self, event: SidecarEvent) -> (actions: Vec<Action<H>>)
        ensures
            final(self)@ == model::relay(old(self)@, event@).next,
            actions.deep_view() == model::relay(old(self)@, event@).actions,
    {
        proof {
            use_type_invariant(&*self);
        }
        let mut actions: Vec<Action<H>> = Vec::new();
        if self.slot.is_empty() {
            assert(actions.deep_view() =~= model::relay(old(self)@, event@).actions);
            return actions;
        }
        match event {
            SidecarEvent::StandardOutputLine(line) => {
                actions.push(Action::Log(LogRecord::WorkerOutput(line)));
            },
            SidecarEvent::StandardErrorLine(line) => {
                actions.push(Action::Log(LogRecord::WorkerErrorOutput(line)));
            },
            SidecarEvent::LaunchError(message) => {
                let payload = SidecarPayload { message: worker_failure_line(message.as_str()) };
                actions.push(Action::Log(LogRecord::WorkerFailed(message)));
                actions.push(Action::Notify(payload));
                match self.slot.take() {
                    Some(handle) => {
                        actions.push(Action::Terminate(handle));
                    },
                    None => {},
                }
                actions.push(Action::Exit(STATUS_WORKER_LOST));
            },
            SidecarEvent::Terminated(_) => {
                return self.stream_closed();
            },
        }
        assert(actions.deep_view() =~= model::relay(old(self)@, event@).actions);
        actions
    }

    /// An exit path of the application fired: the slot is read and cleared,
    /// the worker that it held is handed to termination, and after that
    /// comes what the hook is there for.
    pub fn hook(&mut self, hook: Hook) -> (actions: Vec<Action<H>>)
        ensures
            final(self)@ == model::hook(old(self)@, hook).next,
            actions.deep_view() == model::hook(old(self)@, hook).actions,
    {
        proof {
            use_type_invariant(&*self);
        }
        let mut actions: Vec<Action<H>> = Vec::new();
        match hook {
            Hook::ExitRequested => {
                actions.push(Action::Log(LogRecord::ExitRequested));
            },
            Hook::Restart => {
                actions.push(Action::Log(LogRecord::RestartRequested));
            },
            _ => {},
        }
        match self.slot.take() {
            Some(handle) => {
                actions.push(Action::Terminate(handle));
                match hook {
                    Hook::CloseRequested | Hook::Destroyed => {
                        actions.push(Action::Log(LogRecord::Killed));
                    },
                    Hook::ExitRequested | Hook::Restart => {
                        actions.push(Action::Log(LogRecord::KilledOnRestart));
                    },
                }
            },
            None => {},
        }
        match hook {
            Hook::CloseRequested => {
                actions.push(Action::PreventClose);
                actions.push(Action::Exit(STATUS_CLOSED));
            },
            Hook::Destroyed => {
                actions.push(Action::Exit(STATUS_CLOSED));
            },
            Hook::ExitRequested => {},
            Hook::Restart => {
                actions.push(Action::Restart);
            },
        }
        assert(actions.deep_view() =~= model::hook(old(self)@, hook).actions);
        actions
    }

    /// One step, whatever reached the supervisor.
    pub fn step(&mut self, event: HostEvent) -> (actions: Vec<Action<H>>)
        ensures
            final(self)@ == model::step(old(self)@, event@).next,
            actions.deep_view() == model::step(old(self)@, event@).actions,
    {
        match event {
            HostEvent::Worker(event) => self.relay(event),
            HostEvent::StreamClosed => self.stream_closed(),
            HostEvent::Hook(hook) => self.hook(hook),
        }
    }
}

} // verus!
