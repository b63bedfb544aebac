//! What the supervisor asks the host to do.

use vstd::prelude::*;
use crate::log::{LogRecord, LogRecordView};

verus! {

/// The name of the event by which the user interface is told that the
/// running worker failed.
pub const SIDECAR_ERROR_EVENT: &'static str = "sidecar-error";

/// What the user interface is told when the running worker fails.
#[derive(Clone, Debug, PartialEq, Eq)]
pub struct SidecarPayload {
    pub message: String,
}

/// A [`SidecarPayload`] as a mathematical value.
pub struct SidecarPayloadView {
    pub message: Seq<char>,
}

impl View for SidecarPayload {
    type V = SidecarPayloadView;

    open spec fn view(&self) -> SidecarPayloadView {
        SidecarPayloadView { message: self.message@ }
    }
}

/// One thing for the host to do. The supervisor hands out lists of them, and
/// the host performs a list from its first action to its last.
///
/// `H` is the handle of the worker process.
#[derive(Clone, Debug, PartialEq, Eq)]
pub enum Action<H> {
    /// Write the record's line to its stream.
    Log(LogRecord),
    /// Start draining the worker's event stream, for as long as the
    /// application lives.
    StartRelay,
    /// Send the payload to the user interface, and do not wait for it: a
    /// failed delivery is ignored.
    Notify(SidecarPayload),
    /// Ask the process behind the handle to terminate. A failure of that
    /// request is ignored: nothing is left to be done about it.
    Terminate(H),
    /// Keep the window from closing by itself.
    PreventClose,
    /// End the application with this status.
    Exit(i32),
    /// Start the application anew.
    Restart,
}

/// An [`Action`] as a mathematical value.
pub enum ActionView<H> {
    Log(LogRecordView),
    StartRelay,
    Notify(SidecarPayloadView),
    Terminate(H),
    PreventClose,
    Exit(i32),
    Restart,
}

impl<H> View for Action<H> {
    type V = ActionView<H>;

    open spec fn view(&self) -> ActionView<H> {
        match *self {
            Action::Log(record) => ActionView::Log(record@),
            Action::StartRelay => ActionView::StartRelay,
            Action::Notify(payload) => ActionView::Notify(payload@),
            Action::Terminate(handle) => ActionView::Terminate(handle),
            Action::PreventClose => ActionView::PreventClose,
            Action::Exit(status) => ActionView::Exit(status),
            Action::Restart => ActionView::Restart,
        }
    }
}

impl<H> DeepView for Action<H> {
    type V = ActionView<H>;

    open spec fn deep_view(&self) -> ActionView<H> {
        self@
    }
}

} // verus!
