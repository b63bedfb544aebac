//! The lines that the supervisor writes to the application's own output.

use vstd::prelude::*;
use crate::text::{decode_lossy, lossy_text, quote, quoted_text, tagged};

verus! {

/// Where a line is written.
#[derive(Clone, Copy, Debug, PartialEq, Eq)]
pub enum LogStream {
    /// The application's standard output.
    Stdout,
    /// The application's standard error.
    Stderr,
}

/// One thing worth a line in the log.
#[derive(Clone, Debug, PartialEq, Eq)]
pub enum LogRecord {
    /// The worker wrote a line to its standard output.
    WorkerOutput(Vec<u8>),
    /// The worker wrote a line to its standard error.
    WorkerErrorOutput(Vec<u8>),
    /// The host reported an error of the running worker.
    WorkerFailed(String),
    /// The worker ended, or its stream did.
    WorkerTerminated,
    /// The worker could not be started.
    SpawnFailed(String),
    /// The worker was terminated because a window closed.
    Killed,
    /// The worker was terminated because the application exits or restarts.
    KilledOnRestart,
    /// The application was asked to exit.
    ExitRequested,
    /// The application was asked to restart.
    RestartRequested,
}

/// A [`LogRecord`] as a mathematical value.
pub enum LogRecordView {
    WorkerOutput(Seq<u8>),
    WorkerErrorOutput(Seq<u8>),
    WorkerFailed(Seq<char>),
    WorkerTerminated,
    SpawnFailed(Seq<char>),
    Killed,
    KilledOnRestart,
    ExitRequested,
    RestartRequested,
}

impl View for LogRecord {
    type V = LogRecordView;

    open spec fn view(&self) -> LogRecordView {
        match *self {
            LogRecord::WorkerOutput(line) => LogRecordView::WorkerOutput(line@),
            LogRecord::WorkerErrorOutput(line) => LogRecordView::WorkerErrorOutput(line@),
            LogRecord::WorkerFailed(message) => LogRecordView::WorkerFailed(message@),
            LogRecord::WorkerTerminated => LogRecordView::WorkerTerminated,
            LogRecord::SpawnFailed(message) => LogRecordView::SpawnFailed(message@),
            LogRecord::Killed => LogRecordView::Killed,
            LogRecord::KilledOnRestart => LogRecordView::KilledOnRestart,
            LogRecord::ExitRequested => LogRecordView::ExitRequested,
            LogRecord::RestartRequested => LogRecordView::RestartRequested,
        }
    }
}

/// The text that reports an error of the running worker: in the log, and to
/// the user interface.
pub open spec fn worker_failure_text(message: Seq<char>) -> Seq<char> {
    "[Sidecar error] "@ + message
}

impl LogRecordView {
    /// The stream that the record's line belongs to: what the application
    /// does by itself and what the worker printed go to the standard output,
    /// every failure to the standard error.
    pub open spec fn stream(self) -> LogStream {
        match self {
            LogRecordView::WorkerOutput(_) => LogStream::Stdout,
            LogRecordView::WorkerErrorOutput(_) => LogStream::Stderr,
            LogRecordView::WorkerFailed(_) => LogStream::Stderr,
            LogRecordView::WorkerTerminated => LogStream::Stderr,
            LogRecordView::SpawnFailed(_) => LogStream::Stderr,
            LogRecordView::Killed => LogStream::Stdout,
            LogRecordView::KilledOnRestart => LogStream::Stdout,
            LogRecordView::ExitRequested => LogStream::Stdout,
            LogRecordView::RestartRequested => LogStream::Stdout,
        }
    }

    /// The record's line, without the line break. What the worker printed is
    /// decoded lossily and shown quoted, so that it stays on one line.
    pub open spec fn text(self) -> Seq<char> {
        match self {
            LogRecordView::WorkerOutput(line) => "[Sidecar stdout] "@ + quoted_text(
                lossy_text(line),
            ),
            LogRecordView::WorkerErrorOutput(line) => "[Sidecar stderr] "@ + quoted_text(
                lossy_text(line),
            ),
            LogRecordView::WorkerFailed(message) => worker_failure_text(message),
            LogRecordView::WorkerTerminated => "[Sidecar] Terminated."@,
            LogRecordView::SpawnFailed(message) => "[Sidecar] Failed to spawn: "@ + message,
            LogRecordView::Killed => "🛑 Sidecar process killed."@,
            LogRecordView::KilledOnRestart => "🛑 Sidecar killed on restart."@,
            LogRecordView::ExitRequested => "🚨 Exit requested!"@,
            LogRecordView::RestartRequested => "🚨 Restart requested!"@,
        }
    }
}

/// The text of a worker's line once it is decoded and quoted, behind `tag`.
pub fn worker_line(tag: &str, line: &Vec<u8>) -> (text: String)
    ensures
        text@ == tag@ + quoted_text(lossy_text(line@)),
{
    let decoded = decode_lossy(line);
    let quoted = quote(decoded.as_str());
    tagged(tag, quoted.as_str())
}

/// The text that reports the worker's error `message`.
pub fn worker_failure_line(message: &str) -> (text: String)
    ensures
        text@ == worker_failure_text(message@),
{
    tagged("[Sidecar error] ", message)
}

impl LogRecord {
    /// The stream that the record's line is written to.
    pub fn stream(&self) -> (stream: LogStream)
        ensures
            stream == self@.stream(),
    {
        match self {
            LogRecord::WorkerOutput(_) => LogStream::Stdout,
            LogRecord::WorkerErrorOutput(_) => LogStream::Stderr,
            LogRecord::WorkerFailed(_) => LogStream::Stderr,
            LogRecord::WorkerTerminated => LogStream::Stderr,
            LogRecord::SpawnFailed(_) => LogStream::Stderr,
            LogRecord::Killed => LogStream::Stdout,
            LogRecord::KilledOnRestart => LogStream::Stdout,
            LogRecord::ExitRequested => LogStream::Stdout,
            LogRecord::RestartRequested => LogStream::Stdout,
        }
    }

    /// The record's line, without the line break.
    pub fn text(&self) -> (text: String)
        ensures
            text@ == self@.text(),
    {
        match self {
            LogRecord::WorkerOutput(line) => worker_line("[Sidecar stdout] ", line),
            LogRecord::WorkerErrorOutput(line) => worker_line("[Sidecar stderr] ", line),
            LogRecord::WorkerFailed(message) => worker_failure_line(message.as_str()),
            LogRecord::WorkerTerminated => String::from_str("[Sidecar] Terminated."),
            LogRecord::SpawnFailed(message) => tagged(
                "[Sidecar] Failed to spawn: ",
                message.as_str(),
            ),
            LogRecord::Killed => String::from_str("🛑 Sidecar process killed."),
            LogRecord::KilledOnRestart => String::from_str("🛑 Sidecar killed on restart."),
            LogRecord::ExitRequested => String::from_str("🚨 Exit requested!"),
            LogRecord::RestartRequested => String::from_str("🚨 Restart requested!"),
        }
    }
}

} // verus!
