//! The step of the event loop: what one event does to the session's state,
//! and what the loop has to carry out afterwards. Commands from the user and
//! completions from the workers come through here one by one, so the state
//! has exactly one writer.

use crate::document::{
    has_bookmark, toggled, with_bookmark, with_folder, without_bookmark, without_folder,
    BookmarkStore, FolderView,
};
use crate::json::{json_parsed, text_field, whole_field, Json, JsonValue};
use crate::remote::{fault_message, RemoteError};
use crate::settings::{Settings, SettingsView};
use crate::status::{StatusView, SyncStatus};
use crate::sync::{
    failed, pull_order, push_order, refusal, relocated, started, succeeded, PullOrder,
    PullOrderView, PushOrder, PushOrderView, SyncCoordinator, SyncRefusal, SyncState,
};
use vstd::prelude::*;

verus! {

/// What can happen: a command from the user, or the end of a worker's sync.
#[derive(Debug, PartialEq, Eq)]
pub enum UserEvent {
    Navigate(String),
    ToggleFolder(usize),
    ToggleSidebar,
    AddFolder(String),
    AddBookmark { folder_index: usize, name: String, url: String },
    DeleteBookmark { folder_index: usize, bookmark_index: usize },
    DeleteFolder(usize),
    SaveSettings { github_token: String, github_repo: String },
    PushToGitHub,
    PullFromGitHub,
    AutoSync,
    /// A sync failed; this is what to tell the user.
    SyncStatus(String),
    /// A push succeeded; this is the remote's new version.
    PushComplete(Option<String>),
    /// A pull succeeded; these are the remote store and its version.
    PullComplete(BookmarkStore, String),
}

/// What an event is.
pub enum EventView {
    Navigate(Seq<char>),
    ToggleFolder(usize),
    ToggleSidebar,
    AddFolder(Seq<char>),
    AddBookmark { folder_index: usize, name: Seq<char>, url: Seq<char> },
    DeleteBookmark { folder_index: usize, bookmark_index: usize },
    DeleteFolder(usize),
    SaveSettings { github_token: Seq<char>, github_repo: Seq<char> },
    PushToGitHub,
    PullFromGitHub,
    AutoSync,
    SyncStatus(Seq<char>),
    PushComplete(Option<Seq<char>>),
    PullComplete(Seq<FolderView>, Seq<char>),
}

impl View for UserEvent {
    type V = EventView;

    open spec fn view(&self) -> EventView {
        match self {
            UserEvent::Navigate(url) => EventView::Navigate(url@),
            UserEvent::ToggleFolder(index) => EventView::ToggleFolder(*index),
            UserEvent::ToggleSidebar => EventView::ToggleSidebar,
            UserEvent::AddFolder(name) => EventView::AddFolder(name@),
            UserEvent::AddBookmark { folder_index, name, url } => EventView::AddBookmark {
                folder_index: *folder_index,
                name: name@,
                url: url@,
            },
            UserEvent::DeleteBookmark { folder_index, bookmark_index } => EventView::DeleteBookmark {
                folder_index: *folder_index,
                bookmark_index: *bookmark_index,
            },
            UserEvent::DeleteFolder(index) => EventView::DeleteFolder(*index),
            UserEvent::SaveSettings { github_token, github_repo } => EventView::SaveSettings {
                github_token: github_token@,
                github_repo: github_repo@,
            },
            UserEvent::PushToGitHub => EventView::PushToGitHub,
            UserEvent::PullFromGitHub => EventView::PullFromGitHub,
            UserEvent::AutoSync => EventView::AutoSync,
            UserEvent::SyncStatus(message) => EventView::SyncStatus(message@),
            UserEvent::PushComplete(version) => EventView::PushComplete(
                match version {
                    Some(version) => Some(version@),
                    None => None,
                },
            ),
            UserEvent::PullComplete(pulled, version) => EventView::PullComplete(
                pulled@,
                version@,
            ),
        }
    }
}

/// What the loop has to carry out after a step, in this order.
#[derive(Debug, PartialEq, Eq)]
pub enum Action {
    /// Show this address in the content view.
    LoadUrl(String),
    /// Save the store.
    SaveBookmarks,
    /// Save the settings.
    SaveSettings,
    /// Show the store anew.
    RenderBookmarks,
    /// Show the sidebar folded or unfolded.
    SetSidebarCollapsed(bool),
    /// Show the settings anew.
    UpdateSettings,
    /// Show the sync status anew.
    UpdateSyncStatus,
    /// Hand this push to a worker; `automatic` where an edit caused it.
    StartPush { order: PushOrder, automatic: bool },
    /// Hand this pull to a worker.
    StartPull(PullOrder),
    /// Put `AutoSync` at the end of the queue.
    PostAutoSync,
}

/// What an action is.
pub enum ActionView {
    LoadUrl(Seq<char>),
    SaveBookmarks,
    SaveSettings,
    RenderBookmarks,
    SetSidebarCollapsed(bool),
    UpdateSettings,
    UpdateSyncStatus,
    StartPush { order: PushOrderView, automatic: bool },
    StartPull(PullOrderView),
    PostAutoSync,
}

impl View for Action {
    type V = ActionView;

    open spec fn view(&self) -> ActionView {
        match self {
            Action::LoadUrl(url) => ActionView::LoadUrl(url@),
            Action::SaveBookmarks => ActionView::SaveBookmarks,
            Action::SaveSettings => ActionView::SaveSettings,
            Action::RenderBookmarks => ActionView::RenderBookmarks,
            Action::SetSidebarCollapsed(collapsed) => ActionView::SetSidebarCollapsed(*collapsed),
            Action::UpdateSettings => ActionView::UpdateSettings,
            Action::UpdateSyncStatus => ActionView::UpdateSyncStatus,
            Action::StartPush { order, automatic } => ActionView::StartPush {
                order: order@,
                automatic: *automatic,
            },
            Action::StartPull(order) => ActionView::StartPull(order@),
            Action::PostAutoSync => ActionView::PostAutoSync,
        }
    }
}

/// The actions of a list, in order.
pub open spec fn views(actions: Seq<Action>) -> Seq<ActionView> {
    actions.map_values(|a: Action| a@)
}

/// All the state that the event loop owns.
#[derive(Debug, PartialEq, Eq)]
pub struct Session {
    pub store: BookmarkStore,
    pub settings: Settings,
    pub sync: SyncCoordinator,
    pub status: SyncStatus,
}

/// What a session's state is.
pub struct SessionView {
    pub store: Seq<FolderView>,
    pub settings: SettingsView,
    pub sync: SyncState,
    pub status: StatusView,
}

impl View for Session {
    type V = SessionView;

    open spec fn view(&self) -> SessionView {
        SessionView {
            store: self.store@,
            settings: self.settings@,
            sync: self.sync@,
            status: self.status@,
        }
    }
}

/// The session with another store.
pub open spec fn edited(session: SessionView, folders: Seq<FolderView>) -> SessionView {
    SessionView {
        store: folders,
        settings: session.settings,
        sync: session.sync,
        status: session.status,
    }
}

/// What an edit that changed the store calls for: the store is saved, shown
/// anew, and a push of it is asked for through the queue.
pub open spec fn edit_actions() -> Seq<ActionView> {
    seq![ActionView::SaveBookmarks, ActionView::RenderBookmarks, ActionView::PostAutoSync]
}

/// What follows an edit, whichever it is: where it changed the store, the
/// store is saved and shown anew, and a push is asked for through the queue;
/// where it changed nothing, nothing follows.
pub open spec fn after_edit(session: SessionView, folders: Seq<FolderView>, changed: bool) -> (
    SessionView,
    Seq<ActionView>,
) {
    if !changed {
        (session, Seq::empty())
    } else {
        (edited(session, folders), edit_actions())
    }
}

/// The session with another status, and the action that shows it.
pub open spec fn with_status(session: SessionView, status: StatusView) -> (
    SessionView,
    Seq<ActionView>,
) {
    (
        SessionView {
            store: session.store,
            settings: session.settings,
            sync: session.sync,
            status,
        },
        seq![ActionView::UpdateSyncStatus],
    )
}

/// What the user is told where a sync that they asked for cannot start for
/// want of a setting.
pub open spec fn refusal_message(why: SyncRefusal) -> Seq<char> {
    match why {
        SyncRefusal::NoCredential => "No token configured — open Settings"@,
        SyncRefusal::NoLocation => "No repo configured — open Settings"@,
        SyncRefusal::AlreadyInProgress => Seq::empty(),
    }
}

/// What a request for a push does. One from the user that lacks a setting
/// says so; one that meets a sync under way, and any one that an edit
/// caused and that cannot start, does nothing at all. One that starts shows
/// that it is under way and hands the push to a worker.
pub open spec fn after_push_request(session: SessionView, automatic: bool) -> (
    SessionView,
    Seq<ActionView>,
) {
    match refusal(session.settings, session.sync) {
        Some(why) => if automatic || why == SyncRefusal::AlreadyInProgress {
            (session, Seq::empty())
        } else {
            with_status(session, StatusView::Error(refusal_message(why)))
        },
        None => (
            SessionView {
                store: session.store,
                settings: session.settings,
                sync: started(session.sync),
                status: StatusView::InProgress("Pushing..."@),
            },
            seq![
                ActionView::UpdateSyncStatus,
                ActionView::StartPush {
                    order: push_order(session.settings, session.sync, session.store),
                    automatic,
                },
            ],
        ),
    }
}

/// What a request for a pull does, in the same way.
pub open spec fn after_pull_request(session: SessionView) -> (SessionView, Seq<ActionView>) {
    match refusal(session.settings, session.sync) {
        Some(why) => if why == SyncRefusal::AlreadyInProgress {
            (session, Seq::empty())
        } else {
            with_status(session, StatusView::Error(refusal_message(why)))
        },
        None => (
            SessionView {
                store: session.store,
                settings: session.settings,
                sync: started(session.sync),
                status: StatusView::InProgress("Pulling..."@),
            },
            seq![ActionView::UpdateSyncStatus, ActionView::StartPull(pull_order(session.settings))],
        ),
    }
}

/// What new settings do: an empty credential leaves the one that is there,
/// another location makes the remote version unknown, and the settings are
/// saved and shown anew.
pub open spec fn after_settings(
    session: SessionView,
    github_token: Seq<char>,
    github_repo: Seq<char>,
) -> (SessionView, Seq<ActionView>) {
    (
        SessionView {
            store: session.store,
            settings: SettingsView {
                sidebar_collapsed: session.settings.sidebar_collapsed,
                github_token: if github_token.len() > 0 {
                    github_token
                } else {
                    session.settings.github_token
                },
                github_repo,
                github_gist_id: session.settings.github_gist_id,
            },
            sync: if session.settings.github_repo != github_repo {
                relocated(session.sync)
            } else {
                session.sync
            },
            status: session.status,
        },
        seq![ActionView::SaveSettings, ActionView::UpdateSettings],
    )
}

/// What folding or unfolding the sidebar does.
pub open spec fn after_sidebar_toggle(session: SessionView) -> (SessionView, Seq<ActionView>) {
    (
        SessionView {
            store: session.store,
            settings: SettingsView {
                sidebar_collapsed: !session.settings.sidebar_collapsed,
                github_token: session.settings.github_token,
                github_repo: session.settings.github_repo,
                github_gist_id: session.settings.github_gist_id,
            },
            sync: session.sync,
            status: session.status,
        },
        seq![
            ActionView::SaveSettings,
            ActionView::SetSidebarCollapsed(!session.settings.sidebar_collapsed),
        ],
    )
}

/// What the end of a sync does to the session: a failure is shown and
/// changes neither the store nor the remote version; a push that succeeded
/// records the new version; a pull that succeeded puts the remote store in
/// the place of the local one, records its version, and has the store saved.
pub open spec fn after_sync_failure(session: SessionView, message: Seq<char>) -> (
    SessionView,
    Seq<ActionView>,
) {
    (
        SessionView {
            store: session.store,
            settings: session.settings,
            sync: failed(session.sync),
            status: StatusView::Error(message),
        },
        seq![ActionView::UpdateSyncStatus],
    )
}

/// See `after_sync_failure`.
pub open spec fn after_push(session: SessionView, version: Option<Seq<char>>) -> (
    SessionView,
    Seq<ActionView>,
) {
    (
        SessionView {
            store: session.store,
            settings: session.settings,
            sync: succeeded(session.sync, version),
            status: StatusView::Success("Pushed successfully"@),
        },
        seq![ActionView::UpdateSyncStatus],
    )
}

/// See `after_sync_failure`.
pub open spec fn after_pull(session: SessionView, pulled: Seq<FolderView>, version: Seq<char>) -> (
    SessionView,
    Seq<ActionView>,
) {
    (
        SessionView {
            store: pulled,
            settings: session.settings,
            sync: succeeded(session.sync, Some(version)),
            status: StatusView::Success("Pulled successfully"@),
        },
        seq![
            ActionView::SaveBookmarks,
            ActionView::RenderBookmarks,
            ActionView::UpdateSyncStatus,
        ],
    )
}

/// One step of the loop: the state after the event, and the actions that
/// the event calls for.
pub open spec fn step(session: SessionView, event: EventView) -> (SessionView, Seq<ActionView>) {
    match event {
        EventView::Navigate(url) => (session, seq![ActionView::LoadUrl(url)]),
        EventView::ToggleFolder(index) => after_edit(
            session,
            toggled(session.store, index as int),
            index < session.store.len(),
        ),
        EventView::ToggleSidebar => after_sidebar_toggle(session),
        EventView::AddFolder(name) => after_edit(session, with_folder(session.store, name), true),
        EventView::AddBookmark { folder_index, name, url } => after_edit(
            session,
            with_bookmark(session.store, folder_index as int, name, url),
            folder_index < session.store.len(),
        ),
        EventView::DeleteBookmark { folder_index, bookmark_index } => after_edit(
            session,
            without_bookmark(session.store, folder_index as int, bookmark_index as int),
            has_bookmark(session.store, folder_index as int, bookmark_index as int),
        ),
        EventView::DeleteFolder(index) => after_edit(
            session,
            without_folder(session.store, index as int),
            index < session.store.len(),
        ),
        EventView::SaveSettings { github_token, github_repo } => after_settings(
            session,
            github_token,
            github_repo,
        ),
        EventView::PushToGitHub => after_push_request(session, false),
        EventView::PullFromGitHub => after_pull_request(session),
        EventView::AutoSync => after_push_request(session, true),
        EventView::SyncStatus(message) => after_sync_failure(session, message),
        EventView::PushComplete(version) => after_push(session, version),
        EventView::PullComplete(pulled, version) => after_pull(session, pulled, version),
    }
}

/// No actions, or the actions that follow an edit.
fn actions_if(changed: bool) -> (actions: Vec<Action>)
    ensures
        views(actions@) == if !changed {
            Seq::<ActionView>::empty()
        } else {
            edit_actions()
        },
{
    if !changed {
        none()
    } else {
        three(Action::SaveBookmarks, Action::RenderBookmarks, Action::PostAutoSync)
    }
}

/// One action.
fn only(action: Action) -> (actions: Vec<Action>)
    ensures
        views(actions@) == seq![action@],
{
    let mut actions: Vec<Action> = Vec::new();
    actions.push(action);
    assert(views(actions@) =~= seq![action@]);
    actions
}

/// Two actions.
fn both(first: Action, second: Action) -> (actions: Vec<Action>)
    ensures
        views(actions@) == seq![first@, second@],
{
    let mut actions: Vec<Action> = Vec::new();
    actions.push(first);
    actions.push(second);
    assert(views(actions@) =~= seq![first@, second@]);
    actions
}

/// Three actions.
fn three(first: Action, second: Action, third: Action) -> (actions: Vec<Action>)
    ensures
        views(actions@) == seq![first@, second@, third@],
{
    let mut actions: Vec<Action> = Vec::new();
    actions.push(first);
    actions.push(second);
    actions.push(third);
    assert(views(actions@) =~= seq![first@, second@, third@]);
    actions
}

/// No action.
fn none() -> (actions: Vec<Action>)
    ensures
        views(actions@) == Seq::<ActionView>::empty(),
{
    let actions: Vec<Action> = Vec::new();
    assert(views(actions@) =~= Seq::<ActionView>::empty());
    actions
}

impl Session {
    /// A session that starts with this store and these settings: no sync
    /// under way, no remote version seen, nothing shown.
    pub fn new(store: BookmarkStore, settings: Settings) -> (session: Session)
        ensures
            session@ == (SessionView {
                store: store@,
                settings: settings@,
                sync: SyncState { last_known_token: None, sync_in_flight: false },
                status: StatusView::Idle,
            }),
    {
        Session { store, settings, sync: SyncCoordinator::new(), status: SyncStatus::Idle }
    }

    /// Tells the user why a sync that they asked for did not start, unless
    /// one is under way, which is passed over in silence.
    fn refuse(&mut self, why: SyncRefusal) -> (actions: Vec<Action>)
        ensures
            (final(self)@, views(actions@)) == if why == SyncRefusal::AlreadyInProgress {
                (old(self)@, Seq::<ActionView>::empty())
            } else {
                with_status(old(self)@, StatusView::Error(refusal_message(why)))
            },
    {
        match why {
            SyncRefusal::NoCredential => {
                self.status = SyncStatus::Error("No token configured — open Settings".to_owned());
                only(Action::UpdateSyncStatus)
            },
            SyncRefusal::NoLocation => {
                self.status = SyncStatus::Error("No repo configured — open Settings".to_owned());
                only(Action::UpdateSyncStatus)
            },
            SyncRefusal::AlreadyInProgress => none(),
        }
    }

    /// Handles a request for a push, from the user or after an edit.
    fn request_push(&mut self, automatic: bool) -> (actions: Vec<Action>)
        ensures
            (final(self)@, views(actions@)) == after_push_request(old(self)@, automatic),
    {
        match self.sync.push(&self.settings, &self.store) {
            Ok(order) => {
                self.status = SyncStatus::InProgress("Pushing...".to_owned());
                both(Action::UpdateSyncStatus, Action::StartPush { order, automatic })
            },
            Err(why) => {
                if automatic {
                    none()
                } else {
                    self.refuse(why)
                }
            },
        }
    }

    /// Handles a request for a pull.
    fn request_pull(&mut self) -> (actions: Vec<Action>)
        ensures
            (final(self)@, views(actions@)) == after_pull_request(old(self)@),
    {
        match self.sync.pull(&self.settings) {
            Ok(order) => {
                self.status = SyncStatus::InProgress("Pulling...".to_owned());
                both(Action::UpdateSyncStatus, Action::StartPull(order))
            },
            Err(why) => self.refuse(why),
        }
    }

    /// Takes new settings from the user.
    fn save_settings(&mut self, github_token: String, github_repo: String) -> (actions: Vec<
        Action,
    >)
        ensures
            (final(self)@, views(actions@)) == after_settings(
                old(self)@,
                github_token@,
                github_repo@,
            ),
    {
        if !github_token.as_str().is_empty() {
            self.settings.github_token = github_token;
        }
        if !(self.settings.github_repo == github_repo) {
            self.sync.location_changed();
        }
        self.settings.github_repo = github_repo;
        both(Action::SaveSettings, Action::UpdateSettings)
    }

    /// Takes one event: changes the state as the event asks, and returns
    /// what the loop has to carry out, in order. An edit that names a folder
    /// or a bookmark that is not there changes nothing and asks for nothing.
    pub fn handle(&mut self, event: UserEvent) -> (actions: Vec<Action>)
        ensures
            (final(self)@, views(actions@)) == step(old(self)@, event@),
    {
        match event {
            UserEvent::Navigate(url) => only(Action::LoadUrl(url)),
            UserEvent::ToggleFolder(index) => {
                let changed = self.store.toggle_folder(index);
                actions_if(changed)
            },
            UserEvent::ToggleSidebar => {
                let collapsed = !self.settings.sidebar_collapsed;
                self.settings.sidebar_collapsed = collapsed;
                both(Action::SaveSettings, Action::SetSidebarCollapsed(collapsed))
            },
            UserEvent::AddFolder(name) => {
                self.store.add_folder(name);
                actions_if(true)
            },
            UserEvent::AddBookmark { folder_index, name, url } => {
                let changed = self.store.add_bookmark(folder_index, name, url);
                actions_if(changed)
            },
            UserEvent::DeleteBookmark { folder_index, bookmark_index } => {
                let changed = self.store.delete_bookmark(folder_index, bookmark_index);
                actions_if(changed)
            },
            UserEvent::DeleteFolder(index) => {
                let changed = self.store.delete_folder(index);
                actions_if(changed)
            },
            UserEvent::SaveSettings { github_token, github_repo } => self.save_settings(
                github_token,
                github_repo,
            ),
            UserEvent::PushToGitHub => self.request_push(false),
            UserEvent::PullFromGitHub => self.request_pull(),
            UserEvent::AutoSync => self.request_push(true),
            UserEvent::SyncStatus(message) => {
                self.sync.sync_failed();
                self.status = SyncStatus::Error(message);
                only(Action::UpdateSyncStatus)
            },
            UserEvent::PushComplete(version) => {
                self.sync.sync_succeeded(version);
                self.status = SyncStatus::Success("Pushed successfully".to_owned());
                only(Action::UpdateSyncStatus)
            },
            UserEvent::PullComplete(pulled, version) => {
                self.sync.sync_succeeded(Some(version));
                self.store = pulled;
                self.status = SyncStatus::Success("Pulled successfully".to_owned());
                three(Action::SaveBookmarks, Action::RenderBookmarks, Action::UpdateSyncStatus)
            },
        }
    }
}

/// What begins the message for a push that failed.
pub open spec fn push_failure_prefix(automatic: bool) -> Seq<char> {
    if automatic {
        "Sync failed: "@
    } else {
        "Push failed: "@
    }
}

/// The event with which a worker reports how its push ended: the new
/// version, or the message for the failure.
pub fn push_event(outcome: Result<String, RemoteError>, automatic: bool) -> (event: UserEvent)
    ensures
        event@ == match outcome {
            Ok(version) => EventView::PushComplete(Some(version@)),
            Err(failure) => EventView::SyncStatus(
                push_failure_prefix(automatic) + fault_message(failure@),
            ),
        },
{
    match outcome {
        Ok(version) => UserEvent::PushComplete(Some(version)),
        Err(failure) => {
            let prefix = if automatic {
                "Sync failed: "
            } else {
                "Push failed: "
            };
            UserEvent::SyncStatus(prefix.to_owned().concat(failure.message().as_str()))
        },
    }
}

/// The event with which a worker reports how its pull ended: the remote
/// store and its version, or the message for the failure.
pub fn pull_event(outcome: Result<(BookmarkStore, String), RemoteError>) -> (event: UserEvent)
    ensures
        event@ == match outcome {
            Ok((pulled, version)) => EventView::PullComplete(pulled@, version@),
            Err(failure) => EventView::SyncStatus("Pull failed: "@ + fault_message(failure@)),
        },
{
    match outcome {
        Ok((pulled, version)) => UserEvent::PullComplete(pulled, version),
        Err(failure) => UserEvent::SyncStatus(
            "Pull failed: ".to_owned().concat(failure.message().as_str()),
        ),
    }
}

/// The text under `key`, or the empty text where there is none.
pub open spec fn text_or_nothing(message: JsonValue, key: Seq<char>) -> Seq<char> {
    match text_field(message, key) {
        Some(text) => text,
        None => Seq::empty(),
    }
}

/// The command that a message from the sidebar stands for: an object whose
/// `action` names the command, with what the command needs beside it. A
/// message that lacks something, or names no command, stands for none.
pub open spec fn message_command(message: JsonValue) -> Option<EventView> {
    match text_field(message, "action"@) {
        None => None,
        Some(action) => if action == "navigate"@ {
            match text_field(message, "url"@) {
                Some(url) => Some(EventView::Navigate(url)),
                None => None,
            }
        } else if action == "toggle_folder"@ {
            match whole_field(message, "folder_index"@) {
                Some(index) => Some(EventView::ToggleFolder(index as usize)),
                None => None,
            }
        } else if action == "toggle_sidebar"@ {
            Some(EventView::ToggleSidebar)
        } else if action == "add_folder"@ {
            match text_field(message, "name"@) {
                Some(name) => Some(EventView::AddFolder(name)),
                None => None,
            }
        } else if action == "add_bookmark"@ {
            match (
                whole_field(message, "folder_index"@),
                text_field(message, "name"@),
                text_field(message, "url"@),
            ) {
                (Some(index), Some(name), Some(url)) => Some(
                    EventView::AddBookmark { folder_index: index as usize, name, url },
                ),
                _ => None,
            }
        } else if action == "delete_bookmark"@ {
            match (whole_field(message, "folder_index"@), whole_field(message, "bookmark_index"@)) {
                (Some(folder), Some(bookmark)) => Some(
                    EventView::DeleteBookmark {
                        folder_index: folder as usize,
                        bookmark_index: bookmark as usize,
                    },
                ),
                _ => None,
            }
        } else if action == "delete_folder"@ {
            match whole_field(message, "folder_index"@) {
                Some(index) => Some(EventView::DeleteFolder(index as usize)),
                None => None,
            }
        } else if action == "push_to_github"@ {
            Some(EventView::PushToGitHub)
        } else if action == "pull_from_github"@ {
            Some(EventView::PullFromGitHub)
        } else if action == "save_settings"@ {
            Some(
                EventView::SaveSettings {
                    github_token: text_or_nothing(message, "github_token"@),
                    github_repo: text_or_nothing(message, "github_repo"@),
                },
            )
        } else {
            None
        },
    }
}

/// The command that a message's text stands for.
pub open spec fn text_command(text: Seq<char>) -> Option<EventView> {
    match json_parsed(text) {
        Some(message) => message_command(message),
        None => None,
    }
}

/// Tells whether a text is the one that a literal spells.
fn spells(text: &String, literal: &str) -> (same: bool)
    ensures
        same == (text@ == literal@),
{
    *text == literal.to_owned()
}

/// A copy of the text under `key`, or the empty text.
fn text_or_empty(message: &Json, key: &str) -> (text: String)
    ensures
        text@ == text_or_nothing(message@, key@),
{
    match message.text_at(key) {
        Some(text) => text.clone(),
        None => String::new(),
    }
}

impl UserEvent {
    /// Reads a message from the sidebar as a command.
    pub fn from_json(message: &Json) -> (command: Option<UserEvent>)
        ensures
            command is Some == message_command(message@) is Some,
            command is Some ==> command->0@ == message_command(message@)->0,
    {
        let action = match message.text_at("action") {
            Some(action) => action,
            None => {
                return None;
            },
        };
        if spells(action, "navigate") {
            match message.text_at("url") {
                Some(url) => Some(UserEvent::Navigate(url.clone())),
                None => None,
            }
        } else if spells(action, "toggle_folder") {
            match message.whole_at("folder_index") {
                Some(index) => Some(UserEvent::ToggleFolder(index as usize)),
                None => None,
            }
        } else if spells(action, "toggle_sidebar") {
            Some(UserEvent::ToggleSidebar)
        } else if spells(action, "add_folder") {
            match message.text_at("name") {
                Some(name) => Some(UserEvent::AddFolder(name.clone())),
                None => None,
            }
        } else if spells(action, "add_bookmark") {
            match (message.whole_at("folder_index"), message.text_at("name"), message.text_at("url")) {
                (Some(index), Some(name), Some(url)) => Some(
                    UserEvent::AddBookmark {
                        folder_index: index as usize,
                        name: name.clone(),
                        url: url.clone(),
                    },
                ),
                _ => None,
            }
        } else if spells(action, "delete_bookmark") {
            match (message.whole_at("folder_index"), message.whole_at("bookmark_index")) {
                (Some(folder), Some(bookmark)) => Some(
                    UserEvent::DeleteBookmark {
                        folder_index: folder as usize,
                        bookmark_index: bookmark as usize,
                    },
                ),
                _ => None,
            }
        } else if spells(action, "delete_folder") {
            match message.whole_at("folder_index") {
                Some(index) => Some(UserEvent::DeleteFolder(index as usize)),
                None => None,
            }
        } else if spells(action, "push_to_github") {
            Some(UserEvent::PushToGitHub)
        } else if spells(action, "pull_from_github") {
            Some(UserEvent::PullFromGitHub)
        } else if spells(action, "save_settings") {
            Some(
                UserEvent::SaveSettings {
                    github_token: text_or_empty(message, "github_token"),
                    github_repo: text_or_empty(message, "github_repo"),
                },
            )
        } else {
            None
        }
    }

    /// Reads the text of a message from the sidebar as a command: `None`
    /// where the text is not JSON or stands for no command.
    pub fn from_message(text: &str) -> (command: Option<UserEvent>)
        ensures
            command is Some == text_command(text@) is Some,
            command is Some ==> command->0@ == text_command(text@)->0,
    {
        match Json::parse(text) {
            Some(message) => UserEvent::from_json(&message),
            None => None,
        }
    }
}

/// Whether an event is an edit of the store by the user.
pub open spec fn is_edit(event: EventView) -> bool {
    event is ToggleFolder || event is AddFolder || event is AddBookmark || event is DeleteBookmark
        || event is DeleteFolder
}

/// Whether an action hands a sync to a worker.
pub open spec fn starts_sync(action: ActionView) -> bool {
    action is StartPush || action is StartPull
}

/// An edit that names a folder or a bookmark that is not there leaves the
/// whole session as it is and asks for nothing: no save, no sync.
pub proof fn lemma_edits_out_of_range_do_nothing(
    session: SessionView,
    folder_index: usize,
    bookmark_index: usize,
    name: Seq<char>,
    url: Seq<char>,
)
    ensures
        folder_index >= session.store.len() ==> {
            &&& step(session, EventView::ToggleFolder(folder_index)) == (
                session,
                Seq::<ActionView>::empty(),
            )
            &&& step(session, EventView::AddBookmark { folder_index, name, url }) == (
                session,
                Seq::<ActionView>::empty(),
            )
            &&& step(session, EventView::DeleteFolder(folder_index)) == (
                session,
                Seq::<ActionView>::empty(),
            )
        },
        !has_bookmark(session.store, folder_index as int, bookmark_index as int) ==> step(
            session,
            EventView::DeleteBookmark { folder_index, bookmark_index },
        ) == (session, Seq::<ActionView>::empty()),
{
}

/// Every edit that changes the store, the opening and closing of a folder
/// as much as an addition or a removal, has the store saved, then shown
/// anew, then asks for a push of it; the store is then the edited one, and
/// nothing else in the session has changed.
pub proof fn lemma_every_edit_is_saved_and_synced(
    session: SessionView,
    folder_index: usize,
    bookmark_index: usize,
    name: Seq<char>,
    url: Seq<char>,
)
    ensures
        step(session, EventView::AddFolder(name)) == (
            edited(session, with_folder(session.store, name)),
            edit_actions(),
        ),
        folder_index < session.store.len() ==> {
            &&& step(session, EventView::ToggleFolder(folder_index)) == (
                edited(session, toggled(session.store, folder_index as int)),
                edit_actions(),
            )
            &&& step(session, EventView::AddBookmark { folder_index, name, url }) == (
                edited(session, with_bookmark(session.store, folder_index as int, name, url)),
                edit_actions(),
            )
            &&& step(session, EventView::DeleteFolder(folder_index)) == (
                edited(session, without_folder(session.store, folder_index as int)),
                edit_actions(),
            )
        },
        has_bookmark(session.store, folder_index as int, bookmark_index as int) ==> step(
            session,
            EventView::DeleteBookmark { folder_index, bookmark_index },
        ) == (
            edited(
                session,
                without_bookmark(session.store, folder_index as int, bookmark_index as int),
            ),
            edit_actions(),
        ),
{
}

/// An edit that changes the store has the store saved first, and starts no
/// sync by itself: the push that follows it is asked for through the queue,
/// after the save.
pub proof fn lemma_edit_is_saved_before_sync(session: SessionView, event: EventView)
    requires
        is_edit(event),
    ensures
        step(session, event).1.len() == 0 || step(session, event).1[0] == ActionView::SaveBookmarks,
        step(session, event).1.len() == 0 ==> step(session, event).0 == session,
        forall|i: int|
            0 <= i < step(session, event).1.len() ==> !starts_sync(
                #[trigger] step(session, event).1[i],
            ),
{
}

/// While a sync is under way, a request for another, whoever makes it,
/// changes nothing and hands nothing to a worker.
pub proof fn lemma_request_during_sync_does_nothing(session: SessionView)
    requires
        session.settings.github_token.len() > 0,
        session.settings.github_repo.len() > 0,
        session.sync.sync_in_flight,
    ensures
        refusal(session.settings, session.sync) == Some(SyncRefusal::AlreadyInProgress),
        step(session, EventView::PushToGitHub) == (session, Seq::<ActionView>::empty()),
        step(session, EventView::PullFromGitHub) == (session, Seq::<ActionView>::empty()),
        step(session, EventView::AutoSync) == (session, Seq::<ActionView>::empty()),
{
}

/// A push after an edit that can start does what a push by the user does;
/// only the order says that an edit caused it.
pub proof fn lemma_auto_sync_is_a_push(session: SessionView)
    requires
        refusal(session.settings, session.sync) is None,
    ensures
        step(session, EventView::AutoSync).0 == step(session, EventView::PushToGitHub).0,
        step(session, EventView::AutoSync).1[0] == step(session, EventView::PushToGitHub).1[0],
        step(session, EventView::AutoSync).1[1]->StartPush_order == step(
            session,
            EventView::PushToGitHub,
        ).1[1]->StartPush_order,
        step(session, EventView::AutoSync).1.len() == 2,
        step(session, EventView::PushToGitHub).1.len() == 2,
{
}

/// A push after an edit that cannot start says nothing, whatever the reason:
/// the session stays as it is, the status too.
pub proof fn lemma_auto_sync_is_silent(session: SessionView)
    requires
        refusal(session.settings, session.sync) is Some,
    ensures
        step(session, EventView::AutoSync) == (session, Seq::<ActionView>::empty()),
{
}

/// A sync that starts puts its own status in the place of whatever was
/// shown.
pub proof fn lemma_sync_start_replaces_status(session: SessionView, shown: StatusView)
    requires
        refusal(session.settings, session.sync) is None,
    ensures
        step(
            SessionView {
                store: session.store,
                settings: session.settings,
                sync: session.sync,
                status: shown,
            },
            EventView::PushToGitHub,
        ).0.status == StatusView::InProgress("Pushing..."@),
        step(
            SessionView {
                store: session.store,
                settings: session.settings,
                sync: session.sync,
                status: shown,
            },
            EventView::PullFromGitHub,
        ).0.status == StatusView::InProgress("Pulling..."@),
{
}

/// A sync that failed changes neither the store nor the remote version last
/// seen, whatever the failure was; the session is free for the next sync.
pub proof fn lemma_failed_sync_keeps_store_and_version(session: SessionView, message: Seq<char>)
    ensures
        step(session, EventView::SyncStatus(message)).0.store == session.store,
        step(session, EventView::SyncStatus(message)).0.sync.last_known_token
            == session.sync.last_known_token,
        !step(session, EventView::SyncStatus(message)).0.sync.sync_in_flight,
{
}

/// A pull that succeeded puts the remote store in the place of the local
/// one, edits that were never pushed included, has it saved, and makes the
/// remote's version the one last seen.
pub proof fn lemma_pull_replaces_store(
    session: SessionView,
    pulled: Seq<FolderView>,
    version: Seq<char>,
)
    ensures
        step(session, EventView::PullComplete(pulled, version)).0.store == pulled,
        step(session, EventView::PullComplete(pulled, version)).0.sync == (SyncState {
            last_known_token: Some(version),
            sync_in_flight: false,
        }),
        step(session, EventView::PullComplete(pulled, version)).1[0] == ActionView::SaveBookmarks,
{
}

/// A push that succeeded makes the version that it returned the one last
/// seen, and the next push names it.
pub proof fn lemma_push_records_version(session: SessionView, version: Seq<char>)
    requires
        session.settings.github_token.len() > 0,
        session.settings.github_repo.len() > 0,
    ensures
        step(session, EventView::PushComplete(Some(version))).0.sync.last_known_token == Some(
            version,
        ),
        step(
            step(session, EventView::PushComplete(Some(version))).0,
            EventView::PushToGitHub,
        ).1[1] == (ActionView::StartPush {
            order: PushOrderView {
                token: session.settings.github_token,
                repo: session.settings.github_repo,
                bookmarks_json: crate::sync::pushed_text(session.store),
                sha: Some(version),
            },
            automatic: false,
        }),
{
}

} // verus!
