//! The errors that the supervisor reports to its caller.

use vstd::prelude::*;
use vstd::string::*;
use crate::update::UpdateFault;

verus! {

/// Why an operation failed.
#[derive(Debug, Clone, PartialEq, Eq)]
pub enum SupervisorError {
    /// The executable could not be started; carries the launcher's words.
    SpawnFailure(String),
    /// A kill was asked for while no process was tracked.
    NotRunning,
    /// The subprocess ended unsuccessfully; carries its captured stderr.
    NonZeroExit(String),
    /// The update check or download failed; carries the updater's words.
    NetworkFailure(String),
    /// The downloaded update could not be installed; carries the updater's
    /// words.
    InstallFailure(String),
}

/// A `SupervisorError` with its texts as character sequences.
pub enum SupervisorErrorView {
    SpawnFailure(Seq<char>),
    NotRunning,
    NonZeroExit(Seq<char>),
    NetworkFailure(Seq<char>),
    InstallFailure(Seq<char>),
}

impl View for SupervisorError {
    type V = SupervisorErrorView;

    open spec fn view(&self) -> SupervisorErrorView {
        match self {
            SupervisorError::SpawnFailure(detail) => SupervisorErrorView::SpawnFailure(detail@),
            SupervisorError::NotRunning => SupervisorErrorView::NotRunning,
            SupervisorError::NonZeroExit(stderr) => SupervisorErrorView::NonZeroExit(stderr@),
            SupervisorError::NetworkFailure(detail) => SupervisorErrorView::NetworkFailure(
                detail@,
            ),
            SupervisorError::InstallFailure(detail) => SupervisorErrorView::InstallFailure(
                detail@,
            ),
        }
    }
}

/// The text shown for an error. A failed install run shows the captured
/// stderr verbatim after a fixed prefix; a failure reported by a collaborator
/// shows that collaborator's words alone.
pub open spec fn message_text(error: SupervisorErrorView) -> Seq<char> {
    match error {
        SupervisorErrorView::SpawnFailure(detail) => detail,
        SupervisorErrorView::NotRunning => "Chrome is not running"@,
        SupervisorErrorView::NonZeroExit(stderr) => "Failed to run bun install: "@ + stderr,
        SupervisorErrorView::NetworkFailure(detail) => detail,
        SupervisorErrorView::InstallFailure(detail) => detail,
    }
}

impl SupervisorError {
    /// The error for a failed update cycle: the failed step decides the kind,
    /// and the updater's words are kept.
    pub fn from_update_fault(fault: UpdateFault, detail: String) -> (error: SupervisorError)
        ensures
            error@ == (match fault {
                UpdateFault::Network => SupervisorErrorView::NetworkFailure(detail@),
                UpdateFault::Install => SupervisorErrorView::InstallFailure(detail@),
            }),
    {
        match fault {
            UpdateFault::Network => SupervisorError::NetworkFailure(detail),
            UpdateFault::Install => SupervisorError::InstallFailure(detail),
        }
    }

    /// The text shown for this error.
    pub fn message(&self) -> (text: String)
        ensures
            text@ == message_text(self@),
    {
        match self {
            SupervisorError::SpawnFailure(detail) => detail.clone(),
            SupervisorError::NotRunning => String::from_str("Chrome is not running"),
            SupervisorError::NonZeroExit(stderr) => {
                let mut text = String::from_str("Failed to run bun install: ");
                text.append(stderr.as_str());
                text
            },
            SupervisorError::NetworkFailure(detail) => detail.clone(),
            SupervisorError::InstallFailure(detail) => detail.clone(),
        }
    }
}

} // verus!
