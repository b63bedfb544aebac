//! The self-update of the application: what to do with what the updater
//! reports. Checking, downloading and installing are the host's work.

use vstd::prelude::*;
use crate::text::{decimal, decimal_text};

verus! {

/// How far the update is.
#[derive(Clone, Copy, Debug, PartialEq, Eq)]
pub enum UpdatePhase {
    /// The check for an update is under way.
    Checking,
    /// An update was found and is being downloaded and installed.
    Installing,
    /// The check found nothing newer. Final.
    UpToDate,
    /// The update is installed, and the application was asked to restart.
    /// Final.
    Installed,
    /// The check, the download or the installation failed. Final.
    Failed,
}

/// What the updater reports.
#[derive(Clone, Copy, Debug, PartialEq, Eq)]
pub enum UpdateEvent {
    /// The check found nothing newer.
    NoneAvailable,
    /// The check found an update.
    Available,
    /// A chunk of the download arrived: its length, and the length of the
    /// whole download where the server told it.
    Chunk { chunk_length: usize, content_length: Option<u64> },
    /// The download is complete.
    DownloadFinished,
    /// The update is installed.
    InstallFinished,
    /// The step that was under way failed.
    Failure,
}

/// What there is to say of an update under way.
#[derive(Clone, Copy, Debug, PartialEq, Eq)]
pub enum UpdateReport {
    /// How much is downloaded, out of how much where that is known.
    Progress { downloaded: usize, content_length: Option<u64> },
    /// The download is complete.
    DownloadFinished,
    /// The update is installed.
    Installed,
}

/// What the host is asked to do for the update.
#[derive(Clone, Copy, Debug, PartialEq, Eq)]
pub enum UpdateAction {
    /// Download the update that was found, and install it.
    DownloadAndInstall,
    /// Write the report's line to the standard output.
    Report(UpdateReport),
    /// Restart the application, by its restart command, so that the worker
    /// is cleaned up first.
    Restart,
}

/// The length of a download as it is shown: the number where it is known,
/// and that it is not where it is not.
pub open spec fn length_text(content_length: Option<u64>) -> Seq<char> {
    match content_length {
        Some(length) => "Some("@ + decimal(length as nat) + ")"@,
        None => "None"@,
    }
}

/// The line of a report, without the line break.
pub open spec fn report_text(report: UpdateReport) -> Seq<char> {
    match report {
        UpdateReport::Progress { downloaded, content_length } => "downloaded "@ + decimal(
            downloaded as nat,
        ) + " from "@ + length_text(content_length),
        UpdateReport::DownloadFinished => "download finished"@,
        UpdateReport::Installed => "update installed"@,
    }
}

impl UpdateReport {
    /// The report's line, without the line break.
    pub fn text(&self) -> (text: String)
        ensures
            text@ == report_text(*self),
    {
        match *self {
            UpdateReport::Progress { downloaded, content_length } => {
                let mut text = String::from_str("downloaded ");
                let count = decimal_text(downloaded as u64);
                text.append(count.as_str());
                text.append(" from ");
                match content_length {
                    Some(length) => {
                        let length = decimal_text(length);
                        text.append("Some(");
                        text.append(length.as_str());
                        text.append(")");
                    },
                    None => {
                        text.append("None");
                    },
                }
                assert(text@ =~= report_text(*self));
                text
            },
            UpdateReport::DownloadFinished => String::from_str("download finished"),
            UpdateReport::Installed => String::from_str("update installed"),
        }
    }
}

/// The update's state: the phase, and how many bytes have arrived.
pub struct UpdateState {
    pub phase: UpdatePhase,
    pub downloaded: nat,
}

/// A state of the update together with the actions that led to it.
pub struct UpdateEffect {
    pub next: UpdateState,
    pub actions: Seq<UpdateAction>,
}

/// The state in which an update starts.
pub open spec fn update_start() -> UpdateState {
    UpdateState { phase: UpdatePhase::Checking, downloaded: 0 }
}

/// Whether the running total still fits the machine's word after `event`.
pub open spec fn update_fits(s: UpdateState, event: UpdateEvent) -> bool {
    s.phase is Installing ==> (event matches UpdateEvent::Chunk { chunk_length, .. }
        ==> s.downloaded + chunk_length <= usize::MAX)
}

/// One step of the update. An update that was found is downloaded and
/// installed; each chunk adds to the count of bytes, which is reported; once
/// the update is installed the application restarts. A failure ends the
/// update wherever it stands. A report that does not belong to the phase is
/// passed over.
pub open spec fn update_step(s: UpdateState, event: UpdateEvent) -> UpdateEffect {
    match (s.phase, event) {
        (UpdatePhase::Checking, UpdateEvent::NoneAvailable) => UpdateEffect {
            next: UpdateState { phase: UpdatePhase::UpToDate, ..s },
            actions: seq![],
        },
        (UpdatePhase::Checking, UpdateEvent::Available) => UpdateEffect {
            next: UpdateState { phase: UpdatePhase::Installing, ..s },
            actions: seq![UpdateAction::DownloadAndInstall],
        },
        (UpdatePhase::Installing, UpdateEvent::Chunk { chunk_length, content_length }) => {
            let downloaded = s.downloaded + chunk_length;
            UpdateEffect {
                next: UpdateState { downloaded: downloaded as nat, ..s },
                actions: seq![
                    UpdateAction::Report(
                        UpdateReport::Progress { downloaded: downloaded as usize, content_length },
                    ),
                ],
            }
        },
        (UpdatePhase::Installing, UpdateEvent::DownloadFinished) => UpdateEffect {
            next: s,
            actions: seq![UpdateAction::Report(UpdateReport::DownloadFinished)],
        },
        (UpdatePhase::Installing, UpdateEvent::InstallFinished) => UpdateEffect {
            next: UpdateState { phase: UpdatePhase::Installed, ..s },
            actions: seq![UpdateAction::Report(UpdateReport::Installed), UpdateAction::Restart],
        },
        (UpdatePhase::Checking, UpdateEvent::Failure) | (
            UpdatePhase::Installing,
            UpdateEvent::Failure,
        ) => UpdateEffect {
            next: UpdateState { phase: UpdatePhase::Failed, ..s },
            actions: seq![],
        },
        _ => UpdateEffect { next: s, actions: seq![] },
    }
}

/// Follows one update from the check to its end.
pub struct Updater {
    phase: UpdatePhase,
    downloaded: usize,
}

impl View for Updater {
    type V = UpdateState;

    closed spec fn view(&self) -> UpdateState {
        UpdateState { phase: self.phase, downloaded: self.downloaded as nat }
    }
}

impl Updater {
    /// An update whose check is under way, with nothing downloaded.
    pub fn new() -> (updater: Self)
        ensures
            updater@ == update_start(),
    {
        Updater { phase: UpdatePhase::Checking, downloaded: 0 }
    }

    /// How far the update is.
    pub fn phase(&self) -> (phase: UpdatePhase)
        ensures
            phase == self@.phase,
    {
        self.phase
    }

    /// How many bytes of the download have arrived.
    pub fn downloaded(&self) -> (downloaded: usize)
        ensures
            downloaded == self@.downloaded,
    {
        self.downloaded
    }

    /// Whether `event` can be taken: the count of bytes must stay within the
    /// machine's word.
    pub fn fits(&self, event: &UpdateEvent) -> (fits: bool)
        ensures
            fits == update_fits(self@, *event),
    {
        match (self.phase, event) {
            (UpdatePhase::Installing, UpdateEvent::Chunk { chunk_length, .. }) => {
                *chunk_length <= usize::MAX - self.downloaded
            },
            _ => true,
        }
    }

    /// Takes the updater's next report.
    pub fn step(&mut self, event: UpdateEvent) -> (actions: Vec<UpdateAction>)
        requires
            update_fits(old(self)@, event),
        ensures
            final(self)@ == update_step(old(self)@, event).next,
            actions@ == update_step(old(self)@, event).actions,
    {
        let mut actions: Vec<UpdateAction> = Vec::new();
        match (self.phase, event) {
            (UpdatePhase::Checking, UpdateEvent::NoneAvailable) => {
                self.phase = UpdatePhase::UpToDate;
            },
            (UpdatePhase::Checking, UpdateEvent::Available) => {
                self.phase = UpdatePhase::Installing;
                actions.push(UpdateAction::DownloadAndInstall);
            },
            (UpdatePhase::Installing, UpdateEvent::Chunk { chunk_length, content_length }) => {
                self.downloaded = self.downloaded + chunk_length;
                actions.push(
                    UpdateAction::Report(
                        UpdateReport::Progress { downloaded: self.downloaded, content_length },
                    ),
                );
            },
            (UpdatePhase::Installing, UpdateEvent::DownloadFinished) => {
                actions.push(UpdateAction::Report(UpdateReport::DownloadFinished));
            },
            (UpdatePhase::Installing, UpdateEvent::InstallFinished) => {
                self.phase = UpdatePhase::Installed;
                actions.push(UpdateAction::Report(UpdateReport::Installed));
                actions.push(UpdateAction::Restart);
            },
            (UpdatePhase::Checking, UpdateEvent::Failure) | (
                UpdatePhase::Installing,
                UpdateEvent::Failure,
            ) => {
                self.phase = UpdatePhase::Failed;
            },
            _ => {},
        }
        assert(actions@ =~= update_step(old(self)@, event).actions);
        actions
    }
}

/// Once the update is up to date, installed or failed, no report changes
/// it or asks for anything.
pub proof fn lemma_update_end_is_final(s: UpdateState, event: UpdateEvent)
    requires
        s.phase is UpToDate || s.phase is Installed || s.phase is Failed,
    ensures
        update_step(s, event) == (UpdateEffect { next: s, actions: seq![] }),
{
}

/// The application is restarted for an update only when its installation
/// finished, as the last thing, and the update is then at its end.
pub proof fn lemma_update_restarts_when_installed(s: UpdateState, event: UpdateEvent)
    ensures
        update_step(s, event).actions.contains(UpdateAction::Restart) <==> (s.phase is Installing
            && event is InstallFinished),
        update_step(s, event).actions.contains(UpdateAction::Restart) ==> {
            &&& update_step(s, event).actions.last() == UpdateAction::Restart
            &&& update_step(s, event).next.phase is Installed
        },
{
    let actions = update_step(s, event).actions;
    if s.phase is Installing && event is InstallFinished {
        assert(actions[1] == UpdateAction::Restart);
    }
}

/// The count of bytes never goes down, and grows by each chunk that
/// arrives while the update is being installed.
pub proof fn lemma_update_counts_chunks(s: UpdateState, event: UpdateEvent)
    ensures
        update_step(s, event).next.downloaded >= s.downloaded,
        update_step(s, event).next.downloaded == s.downloaded + if s.phase is Installing {
            match event {
                UpdateEvent::Chunk { chunk_length, .. } => chunk_length as nat,
                _ => 0nat,
            }
        } else {
            0nat
        },
{
}

} // verus!
