use bookmarks_browser::status::{SyncStatus, ERROR_DWELL, SUCCESS_DWELL};

fn success() -> SyncStatus {
    SyncStatus::Success("Pushed successfully".to_string())
}

fn error() -> SyncStatus {
    SyncStatus::Error("Push failed: Request timed out — try again".to_string())
}

#[test]
fn dwell_times_are_five_and_eight() {
    assert_eq!(SUCCESS_DWELL, 5);
    assert_eq!(ERROR_DWELL, 8);
    assert_eq!(success().dwell(), Some(5));
    assert_eq!(error().dwell(), Some(8));
    assert_eq!(SyncStatus::Idle.dwell(), None);
    assert_eq!(SyncStatus::InProgress("Pushing...".to_string()).dwell(), None);
}

#[test]
fn success_clears_after_its_dwell() {
    assert_eq!(success().elapse(0), success());
    assert_eq!(success().elapse(4), success());
    assert_eq!(success().elapse(5), SyncStatus::Idle);
    assert_eq!(success().elapse(u64::MAX), SyncStatus::Idle);
}

#[test]
fn error_clears_after_its_longer_dwell() {
    assert_eq!(error().elapse(5), error());
    assert_eq!(error().elapse(7), error());
    assert_eq!(error().elapse(8), SyncStatus::Idle);
}

#[test]
fn progress_stays_until_the_sync_ends() {
    let pushing = SyncStatus::InProgress("Pushing...".to_string());
    assert_eq!(pushing.elapse(1000), SyncStatus::InProgress("Pushing...".to_string()));
    assert_eq!(SyncStatus::Idle.elapse(1000), SyncStatus::Idle);
}

#[test]
fn dismiss_clears_at_once() {
    assert_eq!(success().dismiss(), SyncStatus::Idle);
    assert_eq!(error().dismiss(), SyncStatus::Idle);
    assert_eq!(SyncStatus::InProgress("Pulling...".to_string()).dismiss(), SyncStatus::Idle);
    assert_eq!(SyncStatus::Idle.dismiss(), SyncStatus::Idle);
}
