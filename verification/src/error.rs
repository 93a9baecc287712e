//! The failures that starting or stopping the sync helper can report.

use vstd::prelude::*;

verus! {

/// Why a start or a stop of the sync helper failed.
#[derive(Debug, Clone, PartialEq, Eq)]
pub enum SyncError {
    /// The helper could not be spawned; carries the launcher's message.
    LaunchFailed(String),
    /// The helper was spawned but did not become healthy before the deadline.
    HealthTimeout,
    /// The helper could not be killed; carries the system's message.
    KillFailed(String),
}

/// Mathematical model of a [`SyncError`].
pub enum SyncErrorView {
    LaunchFailed(Seq<char>),
    HealthTimeout,
    KillFailed(Seq<char>),
}

impl View for SyncError {
    type V = SyncErrorView;

    open spec fn view(&self) -> SyncErrorView {
        match self {
            SyncError::LaunchFailed(m) => SyncErrorView::LaunchFailed(m@),
            SyncError::HealthTimeout => SyncErrorView::HealthTimeout,
            SyncError::KillFailed(m) => SyncErrorView::KillFailed(m@),
        }
    }
}

impl SyncErrorView {
    /// The text shown to the caller for this error.
    pub open spec fn message(self) -> Seq<char> {
        match self {
            SyncErrorView::LaunchFailed(m) => m,
            SyncErrorView::HealthTimeout => "Sync server failed to start (timeout)"@,
            SyncErrorView::KillFailed(m) => m,
        }
    }
}

impl SyncError {
    /// The text shown to the caller: the fixed timeout sentence, or the
    /// message that the launcher or the system gave.
    pub fn message(&self) -> (text: String)
        ensures
            text@ == self@.message(),
    {
        match self {
            SyncError::LaunchFailed(m) => m.clone(),
            SyncError::HealthTimeout => "Sync server failed to start (timeout)".to_string(),
            SyncError::KillFailed(m) => m.clone(),
        }
    }
}

} // verus!
