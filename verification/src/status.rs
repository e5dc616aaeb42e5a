//! The sync status that the user is shown: nothing, a sync under way, or how
//! the last one ended, which goes away by itself after a while.

use vstd::prelude::*;

verus! {

/// How long a success stays shown, in time units.
pub const SUCCESS_DWELL: u64 = 5;

/// How long a failure stays shown, in time units.
pub const ERROR_DWELL: u64 = 8;

/// What the indicator shows.
#[derive(Debug, PartialEq, Eq)]
pub enum SyncStatus {
    /// Nothing.
    Idle,
    /// A sync is under way.
    InProgress(String),
    /// The last sync succeeded.
    Success(String),
    /// The last sync failed, or could not start.
    Error(String),
}

/// What the indicator shows, with its message as a sequence.
pub enum StatusView {
    Idle,
    InProgress(Seq<char>),
    Success(Seq<char>),
    Error(Seq<char>),
}

impl View for SyncStatus {
    type V = StatusView;

    open spec fn view(&self) -> StatusView {
        match self {
            SyncStatus::Idle => StatusView::Idle,
            SyncStatus::InProgress(message) => StatusView::InProgress(message@),
            SyncStatus::Success(message) => StatusView::Success(message@),
            SyncStatus::Error(message) => StatusView::Error(message@),
        }
    }
}

/// How long a status stays shown before it goes away by itself; `None`
/// where it does not.
pub open spec fn dwell_of(status: StatusView) -> Option<u64> {
    match status {
        StatusView::Success(_) => Some(SUCCESS_DWELL),
        StatusView::Error(_) => Some(ERROR_DWELL),
        _ => None,
    }
}

/// What is shown once a status has been shown for `shown_for` time units.
pub open spec fn after_showing(status: StatusView, shown_for: u64) -> StatusView {
    match dwell_of(status) {
        Some(dwell) => if shown_for >= dwell {
            StatusView::Idle
        } else {
            status
        },
        None => status,
    }
}

impl SyncStatus {
    /// How long this status stays shown before it goes away by itself.
    pub fn dwell(&self) -> (dwell: Option<u64>)
        ensures
            dwell == dwell_of(self@),
    {
        match self {
            SyncStatus::Success(_) => Some(SUCCESS_DWELL),
            SyncStatus::Error(_) => Some(ERROR_DWELL),
            _ => None,
        }
    }

    /// What is shown once this status has been shown for `shown_for` time
    /// units: nothing where its time is over, and else the status still.
    pub fn elapse(self, shown_for: u64) -> (status: SyncStatus)
        ensures
            status@ == after_showing(self@, shown_for),
    {
        match self.dwell() {
            Some(dwell) => if shown_for >= dwell {
                SyncStatus::Idle
            } else {
                self
            },
            None => self,
        }
    }

    /// What is shown once the user has dismissed this status: nothing.
    pub fn dismiss(self) -> (status: SyncStatus)
        ensures
            status@ == StatusView::Idle,
    {
        SyncStatus::Idle
    }
}

/// A sync under way stays shown until it ends; a success goes away after
/// its dwell and a failure after its longer one, neither before.
pub proof fn lemma_status_lifetimes(message: Seq<char>, shown_for: u64)
    ensures
        after_showing(StatusView::InProgress(message), shown_for) == StatusView::InProgress(
            message,
        ),
        after_showing(StatusView::Idle, shown_for) == StatusView::Idle,
        after_showing(StatusView::Success(message), shown_for) == if shown_for >= 5 {
            StatusView::Idle
        } else {
            StatusView::Success(message)
        },
        after_showing(StatusView::Error(message), shown_for) == if shown_for >= 8 {
            StatusView::Idle
        } else {
            StatusView::Error(message)
        },
{
}

} // verus!
