use bookmarks_browser::dispatcher::{pull_event, push_event, Action, Session, UserEvent};
use bookmarks_browser::document::{default_store, BookmarkStore, Folder};
use bookmarks_browser::json::Json;
use bookmarks_browser::remote::{
    begin_store, continue_store, fetched_store, read_request, stored_version, Method, RemoteError,
    Reply, Request, StoreStep,
};
use bookmarks_browser::settings::Settings;
use bookmarks_browser::status::SyncStatus;
use bookmarks_browser::sync::{PullOrder, PushOrder};

/// A remote that keeps one file and refuses writes over a stale version.
struct Remote {
    file: Option<(String, String)>,
    next_version: u32,
    reads: u32,
    writes: u32,
}

impl Remote {
    fn new() -> Remote {
        Remote { file: None, next_version: 1, reads: 0, writes: 0 }
    }

    fn put(&mut self, content: String) -> String {
        let version = format!("v{}", self.next_version);
        self.next_version += 1;
        self.file = Some((content, version.clone()));
        version
    }

    fn send(&mut self, request: &Request) -> Reply {
        assert_eq!(request.url, "https://api.github.com/repos/me/marks/contents/bookmarks.json");
        assert_eq!(request.authorization, "token tok");
        match request.method {
            Method::Get => {
                self.reads += 1;
                match &self.file {
                    None => Reply::Status(404),
                    Some((content, version)) => Reply::Body(
                        Json::Object(vec![
                            ("sha".to_string(), Json::Text(version.clone())),
                            ("content".to_string(), Json::Text(content.clone())),
                        ])
                        .to_compact_text()
                        .expect("text"),
                    ),
                }
            }
            Method::Put => {
                self.writes += 1;
                let body = Json::parse(request.body.as_ref().expect("body")).expect("json");
                let content = body.text_at("content").expect("content").clone();
                let named = body.text_at("sha").cloned();
                let current = self.file.as_ref().map(|(_, version)| version.clone());
                if named != current {
                    return Reply::Status(409);
                }
                let version = self.put(content);
                Reply::Body(
                    Json::Object(vec![(
                        "content".to_string(),
                        Json::Object(vec![("sha".to_string(), Json::Text(version))]),
                    )])
                    .to_compact_text()
                    .expect("text"),
                )
            }
        }
    }
}

fn run_push(remote: &mut Remote, order: &PushOrder) -> Result<String, RemoteError> {
    let write = match begin_store(&order.token, &order.repo, &order.bookmarks_json, order.sha.as_deref())? {
        StoreStep::Write(request) => request,
        StoreStep::Probe(probe) => {
            let reply = remote.send(&probe);
            continue_store(&order.token, &order.repo, &order.bookmarks_json, &reply)?
        }
    };
    stored_version(&remote.send(&write))
}

fn run_pull(remote: &mut Remote, order: &PullOrder) -> Result<(BookmarkStore, String), RemoteError> {
    fetched_store(&remote.send(&read_request(&order.token, &order.repo)))
}

/// Carries out the actions of a step against the remote and feeds the
/// events that come of them back into the session.
fn run(session: &mut Session, remote: &mut Remote, event: UserEvent) {
    let mut queue = vec![event];
    while !queue.is_empty() {
        let next = queue.remove(0);
        for action in session.handle(next) {
            match action {
                Action::StartPush { order, automatic } => {
                    queue.push(push_event(run_push(remote, &order), automatic))
                }
                Action::StartPull(order) => queue.push(pull_event(run_pull(remote, &order))),
                Action::PostAutoSync => queue.push(UserEvent::AutoSync),
                _ => {}
            }
        }
    }
}

fn configured() -> Settings {
    Settings {
        sidebar_collapsed: false,
        github_token: "tok".to_string(),
        github_repo: "me/marks".to_string(),
        github_gist_id: String::new(),
    }
}

#[test]
fn end_to_end_push_probe_and_conflict() {
    let mut remote = Remote::new();
    let mut session = Session::new(default_store(), Settings::default());
    assert_eq!(session.store.folders.len(), 2);
    let total: usize = session.store.folders.iter().map(|f| f.bookmarks.len()).sum();
    assert_eq!(total, 3);

    // no settings yet: the edit is saved, and the sync after it is silent
    run(&mut session, &mut remote, UserEvent::AddFolder("Work".to_string()));
    assert_eq!(session.store.folders.len(), 3);
    assert_eq!(session.status, SyncStatus::Idle);
    assert_eq!((remote.reads, remote.writes), (0, 0));

    session.settings = configured();

    // first push: no version known, so one probe and one write
    run(&mut session, &mut remote, UserEvent::PushToGitHub);
    assert_eq!((remote.reads, remote.writes), (1, 1));
    assert_eq!(session.sync.last_known_token, Some("v1".to_string()));
    assert!(!session.sync.sync_in_flight);
    assert_eq!(session.status, SyncStatus::Success("Pushed successfully".to_string()));

    // someone else writes the remote file meanwhile
    let foreign = remote.file.as_ref().expect("file").0.clone();
    remote.put(foreign);

    // second push: writes over the version it knows, which is stale
    run(&mut session, &mut remote, UserEvent::PushToGitHub);
    assert_eq!((remote.reads, remote.writes), (1, 2));
    assert_eq!(
        session.status,
        SyncStatus::Error("Push failed: SHA conflict — pull first, then push again".to_string())
    );
    assert_eq!(session.sync.last_known_token, Some("v1".to_string()));
    assert!(!session.sync.sync_in_flight);
    assert_eq!(session.store.folders.len(), 3);
}

#[test]
fn pull_then_push_succeeds_after_a_conflict() {
    let mut remote = Remote::new();
    let mut session = Session::new(default_store(), configured());
    run(&mut session, &mut remote, UserEvent::PushToGitHub);
    assert_eq!(session.sync.last_known_token, Some("v1".to_string()));

    // a foreign edit: the remote now holds one folder only
    let other = BookmarkStore {
        folders: vec![Folder { name: "Theirs".to_string(), expanded: true, bookmarks: vec![] }],
    };
    let mut their_session = Session::new(other, configured());
    their_session.sync.last_known_token = Some("v1".to_string());
    run(&mut their_session, &mut remote, UserEvent::PushToGitHub);
    assert_eq!(their_session.sync.last_known_token, Some("v2".to_string()));

    // our edit pushes by itself and meets the conflict
    run(&mut session, &mut remote, UserEvent::AddFolder("Ours".to_string()));
    assert_eq!(
        session.status,
        SyncStatus::Error("Sync failed: SHA conflict — pull first, then push again".to_string())
    );
    assert_eq!(session.sync.last_known_token, Some("v1".to_string()));
    assert_eq!(session.store.folders.len(), 3);

    // pull replaces our store, our unsynced folder included
    run(&mut session, &mut remote, UserEvent::PullFromGitHub);
    assert_eq!(session.status, SyncStatus::Success("Pulled successfully".to_string()));
    assert_eq!(session.sync.last_known_token, Some("v2".to_string()));
    assert_eq!(session.store, their_session.store);

    // and the push after it goes through with the fresh version
    run(&mut session, &mut remote, UserEvent::PushToGitHub);
    assert_eq!(session.status, SyncStatus::Success("Pushed successfully".to_string()));
    assert_eq!(session.sync.last_known_token, Some("v3".to_string()));
}

#[test]
fn an_edit_with_settings_pushes_by_itself() {
    let mut remote = Remote::new();
    let mut session = Session::new(default_store(), configured());
    run(&mut session, &mut remote, UserEvent::AddFolder("Work".to_string()));
    assert_eq!((remote.reads, remote.writes), (1, 1));
    assert_eq!(session.sync.last_known_token, Some("v1".to_string()));
    let mut reader = Session::new(BookmarkStore { folders: vec![] }, configured());
    run(&mut reader, &mut remote, UserEvent::PullFromGitHub);
    assert_eq!(reader.store, session.store);
    assert_eq!(reader.store.folders.len(), 3);
}

#[test]
fn opening_and_closing_a_folder_pushes_by_itself() {
    let mut remote = Remote::new();
    let mut session = Session::new(default_store(), configured());
    run(&mut session, &mut remote, UserEvent::ToggleFolder(1));
    assert_eq!((remote.reads, remote.writes), (1, 1));
    assert_eq!(session.sync.last_known_token, Some("v1".to_string()));
    assert_eq!(session.status, SyncStatus::Success("Pushed successfully".to_string()));
    let mut reader = Session::new(default_store(), configured());
    run(&mut reader, &mut remote, UserEvent::PullFromGitHub);
    assert!(reader.store.folders[0].expanded);
    assert!(!reader.store.folders[1].expanded);
    assert_eq!(reader.store, session.store);

    // a folder that is not there: nothing is saved, nothing is sent
    run(&mut session, &mut remote, UserEvent::ToggleFolder(2));
    assert_eq!((remote.reads, remote.writes), (2, 1));
    assert_eq!(session.sync.last_known_token, Some("v1".to_string()));
}

#[test]
fn pull_from_an_empty_remote_fails_and_keeps_the_store() {
    let mut remote = Remote::new();
    let mut session = Session::new(default_store(), configured());
    run(&mut session, &mut remote, UserEvent::PullFromGitHub);
    assert_eq!(
        session.status,
        SyncStatus::Error(
            "Pull failed: Repository or file not found — check owner/repo".to_string()
        )
    );
    assert_eq!(session.store, default_store());
    assert_eq!(session.sync.last_known_token, None);
    assert!(!session.sync.sync_in_flight);
}
