//! What the host and the worker report to the supervisor.

use vstd::prelude::*;

verus! {

/// How the worker process ended, as the host reports it.
#[derive(Clone, Copy, Debug, PartialEq, Eq)]
pub struct ExitStatus {
    /// The exit code, if the process exited by itself.
    pub code: Option<i32>,
    /// The signal, if one ended the process.
    pub signal: Option<i32>,
}

/// One event of the running worker. A run yields a finite, ordered stream of
/// them, which is consumed once.
#[derive(Clone, Debug, PartialEq, Eq)]
pub enum SidecarEvent {
    /// A line that the worker wrote to its standard output.
    StandardOutputLine(Vec<u8>),
    /// A line that the worker wrote to its standard error.
    StandardErrorLine(Vec<u8>),
    /// The host failed to keep the worker going, with its message.
    LaunchError(String),
    /// The worker process ended.
    Terminated(ExitStatus),
}

/// A [`SidecarEvent`] as a mathematical value.
pub enum SidecarEventView {
    StandardOutputLine(Seq<u8>),
    StandardErrorLine(Seq<u8>),
    LaunchError(Seq<char>),
    Terminated(ExitStatus),
}

impl View for SidecarEvent {
    type V = SidecarEventView;

    open spec fn view(&self) -> SidecarEventView {
        match *self {
            SidecarEvent::StandardOutputLine(line) => SidecarEventView::StandardOutputLine(line@),
            SidecarEvent::StandardErrorLine(line) => SidecarEventView::StandardErrorLine(line@),
            SidecarEvent::LaunchError(message) => SidecarEventView::LaunchError(message@),
            SidecarEvent::Terminated(status) => SidecarEventView::Terminated(status),
        }
    }
}

impl DeepView for SidecarEvent {
    type V = SidecarEventView;

    open spec fn deep_view(&self) -> SidecarEventView {
        self@
    }
}

/// The exit paths of the application on which the worker has to be cleaned
/// up before the host goes on.
#[derive(Clone, Copy, Debug, PartialEq, Eq)]
pub enum Hook {
    /// The user asked to close the window. The host can still cancel this.
    CloseRequested,
    /// The window is gone.
    Destroyed,
    /// The application was asked to exit.
    ExitRequested,
    /// The explicit restart command.
    Restart,
}

/// Anything that reaches the supervisor once the launch is decided.
#[derive(Clone, Debug, PartialEq, Eq)]
pub enum HostEvent {
    /// The next event of the worker's stream.
    Worker(SidecarEvent),
    /// The worker's stream ended without a `Terminated` event.
    StreamClosed,
    /// An exit path of the application fired.
    Hook(Hook),
}

/// A [`HostEvent`] as a mathematical value.
pub enum HostEventView {
    Worker(SidecarEventView),
    StreamClosed,
    Hook(Hook),
}

impl View for HostEvent {
    type V = HostEventView;

    open spec fn view(&self) -> HostEventView {
        match *self {
            HostEvent::Worker(event) => HostEventView::Worker(event@),
            HostEvent::StreamClosed => HostEventView::StreamClosed,
            HostEvent::Hook(hook) => HostEventView::Hook(hook),
        }
    }
}

impl DeepView for HostEvent {
    type V = HostEventView;

    open spec fn deep_view(&self) -> HostEventView {
        self@
    }
}

} // verus!
