use bookmarks_browser::document::{default_store, BookmarkStore};
use bookmarks_browser::settings::Settings;
use bookmarks_browser::sync::{PullOrder, PushOrder, SyncCoordinator, SyncRefusal};

fn settings(token: &str, repo: &str) -> Settings {
    Settings {
        sidebar_collapsed: false,
        github_token: token.to_string(),
        github_repo: repo.to_string(),
        github_gist_id: String::new(),
    }
}

fn coordinator(token: Option<&str>, in_flight: bool) -> SyncCoordinator {
    SyncCoordinator { last_known_token: token.map(|t| t.to_string()), sync_in_flight: in_flight }
}

#[test]
fn a_new_coordinator_knows_nothing() {
    assert_eq!(SyncCoordinator::new(), coordinator(None, false));
}

#[test]
fn check_looks_at_credential_then_location_then_flight() {
    assert_eq!(coordinator(None, true).check(&settings("", "")), Some(SyncRefusal::NoCredential));
    assert_eq!(coordinator(None, true).check(&settings("", "r")), Some(SyncRefusal::NoCredential));
    assert_eq!(coordinator(None, true).check(&settings("t", "")), Some(SyncRefusal::NoLocation));
    assert_eq!(
        coordinator(None, true).check(&settings("t", "r")),
        Some(SyncRefusal::AlreadyInProgress)
    );
    assert_eq!(coordinator(None, false).check(&settings("t", "r")), None);
}

#[test]
fn push_gives_out_an_order_and_marks_the_flight() {
    let mut sync = coordinator(Some("v1"), false);
    let store = default_store();
    let order = sync.push(&settings("tok", "me/marks"), &store);
    assert_eq!(
        order,
        Ok(PushOrder {
            token: "tok".to_string(),
            repo: "me/marks".to_string(),
            bookmarks_json: store.save().expect("text"),
            sha: Some("v1".to_string()),
        })
    );
    assert_eq!(sync, coordinator(Some("v1"), true));
}

#[test]
fn first_push_names_no_version() {
    let mut sync = SyncCoordinator::new();
    let order = sync.push(&settings("tok", "me/marks"), &BookmarkStore { folders: vec![] });
    assert_eq!(
        order,
        Ok(PushOrder {
            token: "tok".to_string(),
            repo: "me/marks".to_string(),
            bookmarks_json: "{\n  \"folders\": []\n}".to_string(),
            sha: None,
        })
    );
    assert_eq!(sync, coordinator(None, true));
}

#[test]
fn push_while_one_is_in_flight_is_refused() {
    let mut sync = SyncCoordinator::new();
    let store = default_store();
    assert!(sync.push(&settings("tok", "me/marks"), &store).is_ok());
    assert_eq!(sync.push(&settings("tok", "me/marks"), &store), Err(SyncRefusal::AlreadyInProgress));
    assert_eq!(sync.pull(&settings("tok", "me/marks")), Err(SyncRefusal::AlreadyInProgress));
    assert_eq!(sync.auto_sync(&settings("tok", "me/marks"), &store), None);
    assert_eq!(sync, coordinator(None, true));
}

#[test]
fn push_without_settings_is_refused_and_changes_nothing() {
    let store = default_store();
    let mut sync = coordinator(Some("v1"), false);
    assert_eq!(sync.push(&settings("", "me/marks"), &store), Err(SyncRefusal::NoCredential));
    assert_eq!(sync.push(&settings("tok", ""), &store), Err(SyncRefusal::NoLocation));
    assert_eq!(sync.pull(&settings("", "")), Err(SyncRefusal::NoCredential));
    assert_eq!(sync.pull(&settings("tok", "")), Err(SyncRefusal::NoLocation));
    assert_eq!(sync, coordinator(Some("v1"), false));
}

#[test]
fn pull_gives_out_an_order_and_marks_the_flight() {
    let mut sync = coordinator(Some("v1"), false);
    assert_eq!(
        sync.pull(&settings("tok", "me/marks")),
        Ok(PullOrder { token: "tok".to_string(), repo: "me/marks".to_string() })
    );
    assert_eq!(sync, coordinator(Some("v1"), true));
}

#[test]
fn auto_sync_is_silent_about_why_not() {
    let store = default_store();
    let mut sync = coordinator(Some("v1"), false);
    assert_eq!(sync.auto_sync(&settings("", ""), &store), None);
    assert_eq!(sync.auto_sync(&settings("tok", ""), &store), None);
    assert_eq!(sync, coordinator(Some("v1"), false));
    let order = sync.auto_sync(&settings("tok", "me/marks"), &store).expect("order");
    assert_eq!(order.sha, Some("v1".to_string()));
    assert_eq!(order.token, "tok");
    assert_eq!(order.repo, "me/marks");
    assert_eq!(order.bookmarks_json, store.save().expect("text"));
    assert_eq!(sync, coordinator(Some("v1"), true));
}

#[test]
fn success_records_the_version_and_frees_the_flight() {
    let mut sync = coordinator(Some("v1"), true);
    sync.sync_succeeded(Some("v2".to_string()));
    assert_eq!(sync, coordinator(Some("v2"), false));
}

#[test]
fn failure_keeps_the_version_and_frees_the_flight() {
    let mut sync = coordinator(Some("v1"), true);
    sync.sync_failed();
    assert_eq!(sync, coordinator(Some("v1"), false));
    let mut fresh = coordinator(None, true);
    fresh.sync_failed();
    assert_eq!(fresh, coordinator(None, false));
}

#[test]
fn another_location_forgets_the_version() {
    let mut sync = coordinator(Some("v1"), false);
    sync.location_changed();
    assert_eq!(sync, coordinator(None, false));
}

#[test]
fn pull_then_push_after_a_conflict_uses_the_fresh_version() {
    let store = default_store();
    let settings = settings("tok", "me/marks");
    let mut sync = coordinator(Some("stale"), false);
    assert!(sync.push(&settings, &store).is_ok());
    // the write came back with a version mismatch
    sync.sync_failed();
    assert_eq!(sync, coordinator(Some("stale"), false));
    assert!(sync.pull(&settings).is_ok());
    sync.sync_succeeded(Some("fresh".to_string()));
    let order = sync.push(&settings, &store).expect("order");
    assert_eq!(order.sha, Some("fresh".to_string()));
}
