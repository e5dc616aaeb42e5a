//! The coordination of syncs: at most one exchange with the remote at a time,
//! and a record of the remote version that was seen last.

use crate::codec::store_json;
use crate::document::{BookmarkStore, FolderView};
use crate::json::json_pretty_text;
use crate::settings::{Settings, SettingsView};
use vstd::prelude::*;

verus! {

/// What the coordinator keeps: the version of the remote file as last seen
/// (`None` before the first sync, and after the location has changed), and
/// whether an exchange is under way.
#[derive(Debug, PartialEq, Eq)]
pub struct SyncCoordinator {
    pub last_known_token: Option<String>,
    pub sync_in_flight: bool,
}

/// What the coordinator's state is.
pub struct SyncState {
    pub last_known_token: Option<Seq<char>>,
    pub sync_in_flight: bool,
}

impl View for SyncCoordinator {
    type V = SyncState;

    open spec fn view(&self) -> SyncState {
        SyncState {
            last_known_token: match self.last_known_token {
                Some(token) => Some(token@),
                None => None,
            },
            sync_in_flight: self.sync_in_flight,
        }
    }
}

/// Why a sync was not started.
#[derive(Debug, Clone, Copy, PartialEq, Eq, Structural)]
pub enum SyncRefusal {
    /// The settings hold no credential.
    NoCredential,
    /// The settings hold no location.
    NoLocation,
    /// Another sync is under way.
    AlreadyInProgress,
}

/// What a worker needs for a push: where to, with which credential, the
/// store's text, and the remote version that the push replaces, if one is
/// known.
#[derive(Debug, PartialEq, Eq)]
pub struct PushOrder {
    pub token: String,
    pub repo: String,
    pub bookmarks_json: String,
    pub sha: Option<String>,
}

/// What a push order is.
pub struct PushOrderView {
    pub token: Seq<char>,
    pub repo: Seq<char>,
    pub bookmarks_json: Seq<char>,
    pub sha: Option<Seq<char>>,
}

impl View for PushOrder {
    type V = PushOrderView;

    open spec fn view(&self) -> PushOrderView {
        PushOrderView {
            token: self.token@,
            repo: self.repo@,
            bookmarks_json: self.bookmarks_json@,
            sha: match self.sha {
                Some(sha) => Some(sha@),
                None => None,
            },
        }
    }
}

/// What a worker needs for a pull: where from, with which credential.
#[derive(Debug, PartialEq, Eq)]
pub struct PullOrder {
    pub token: String,
    pub repo: String,
}

/// What a pull order is.
pub struct PullOrderView {
    pub token: Seq<char>,
    pub repo: Seq<char>,
}

impl View for PullOrder {
    type V = PullOrderView;

    open spec fn view(&self) -> PullOrderView {
        PullOrderView { token: self.token@, repo: self.repo@ }
    }
}

/// Why a sync cannot start, if it cannot: the credential is looked at first,
/// then the location, then whether a sync is under way.
pub open spec fn refusal(settings: SettingsView, state: SyncState) -> Option<SyncRefusal> {
    if settings.github_token.len() == 0 {
        Some(SyncRefusal::NoCredential)
    } else if settings.github_repo.len() == 0 {
        Some(SyncRefusal::NoLocation)
    } else if state.sync_in_flight {
        Some(SyncRefusal::AlreadyInProgress)
    } else {
        None
    }
}

/// The state once a sync has started: one is under way, and the version is
/// as it was.
pub open spec fn started(state: SyncState) -> SyncState {
    SyncState { last_known_token: state.last_known_token, sync_in_flight: true }
}

/// The state once a sync has come back with the remote's version: none is
/// under way, and that version is the one last seen.
pub open spec fn succeeded(state: SyncState, version: Option<Seq<char>>) -> SyncState {
    SyncState { last_known_token: version, sync_in_flight: false }
}

/// The state once a sync has failed: none is under way, and the version is
/// as it was.
pub open spec fn failed(state: SyncState) -> SyncState {
    SyncState { last_known_token: state.last_known_token, sync_in_flight: false }
}

/// The state once the location has changed: the version that was seen
/// belongs to another file and is forgotten.
pub open spec fn relocated(state: SyncState) -> SyncState {
    SyncState { last_known_token: None, sync_in_flight: state.sync_in_flight }
}

/// The text that a push sends for a store: its indented JSON, and nothing
/// where that cannot be written.
pub open spec fn pushed_text(folders: Seq<FolderView>) -> Seq<char> {
    match json_pretty_text(store_json(folders)) {
        Some(text) => text,
        None => Seq::empty(),
    }
}

/// The order that a push of a store gives out.
pub open spec fn push_order(
    settings: SettingsView,
    state: SyncState,
    folders: Seq<FolderView>,
) -> PushOrderView {
    PushOrderView {
        token: settings.github_token,
        repo: settings.github_repo,
        bookmarks_json: pushed_text(folders),
        sha: state.last_known_token,
    }
}

/// The order that a pull gives out.
pub open spec fn pull_order(settings: SettingsView) -> PullOrderView {
    PullOrderView { token: settings.github_token, repo: settings.github_repo }
}

/// Copies an optional text.
fn copy_of(text: &Option<String>) -> (copy: Option<String>)
    ensures
        copy is Some == text is Some,
        copy is Some ==> copy->0@ == text->0@,
{
    match text {
        Some(text) => Some(text.clone()),
        None => None,
    }
}

impl SyncCoordinator {
    /// A coordinator that has seen no remote version and has no sync under
    /// way.
    pub fn new() -> (coordinator: SyncCoordinator)
        ensures
            coordinator@ == (SyncState { last_known_token: None, sync_in_flight: false }),
    {
        SyncCoordinator { last_known_token: None, sync_in_flight: false }
    }

    /// Tells why a sync cannot start now, if it cannot.
    pub fn check(&self, settings: &Settings) -> (verdict: Option<SyncRefusal>)
        ensures
            verdict == refusal(settings@, self@),
    {
        if settings.github_token.as_str().is_empty() {
            Some(SyncRefusal::NoCredential)
        } else if settings.github_repo.as_str().is_empty() {
            Some(SyncRefusal::NoLocation)
        } else if self.sync_in_flight {
            Some(SyncRefusal::AlreadyInProgress)
        } else {
            None
        }
    }

    /// Starts a push of the store. Where it is refused nothing changes and
    /// no order goes out. Else a sync is under way from now on, and the
    /// order names the version that was seen last.
    pub fn push(&mut self, settings: &Settings, store: &BookmarkStore) -> (order: Result<
        PushOrder,
        SyncRefusal,
    >)
        ensures
            match refusal(settings@, old(self)@) {
                Some(why) => order == Err::<PushOrder, SyncRefusal>(why) && final(self)@ == old(
                    self,
                )@,
                None => order is Ok && order->Ok_0@ == push_order(settings@, old(self)@, store@)
                    && final(self)@ == started(old(self)@),
            },
    {
        match self.check(settings) {
            Some(why) => Err(why),
            None => {
                let bookmarks_json = match store.save() {
                    Some(text) => text,
                    None => String::new(),
                };
                let order = PushOrder {
                    token: settings.github_token.clone(),
                    repo: settings.github_repo.clone(),
                    bookmarks_json,
                    sha: copy_of(&self.last_known_token),
                };
                self.sync_in_flight = true;
                Ok(order)
            },
        }
    }

    /// Starts a pull. Where it is refused nothing changes and no order goes
    /// out. Else a sync is under way from now on.
    pub fn pull(&mut self, settings: &Settings) -> (order: Result<PullOrder, SyncRefusal>)
        ensures
            match refusal(settings@, old(self)@) {
                Some(why) => order == Err::<PullOrder, SyncRefusal>(why) && final(self)@ == old(
                    self,
                )@,
                None => order is Ok && order->Ok_0@ == pull_order(settings@) && final(self)@
                    == started(old(self)@),
            },
    {
        match self.check(settings) {
            Some(why) => Err(why),
            None => {
                let order = PullOrder {
                    token: settings.github_token.clone(),
                    repo: settings.github_repo.clone(),
                };
                self.sync_in_flight = true;
                Ok(order)
            },
        }
    }

    /// Starts a push after an edit, if one can start: as `push` does, but
    /// without a word on why not.
    pub fn auto_sync(&mut self, settings: &Settings, store: &BookmarkStore) -> (order: Option<
        PushOrder,
    >)
        ensures
            match refusal(settings@, old(self)@) {
                Some(_) => order is None && final(self)@ == old(self)@,
                None => order is Some && order->0@ == push_order(settings@, old(self)@, store@)
                    && final(self)@ == started(old(self)@),
            },
    {
        match self.push(settings, store) {
            Ok(order) => Some(order),
            Err(_) => None,
        }
    }

    /// Takes note that a sync came back with the remote's version: none is
    /// under way any more, and that version is the one last seen.
    pub fn sync_succeeded(&mut self, version: Option<String>)
        ensures
            final(self)@ == succeeded(
                old(self)@,
                match version {
                    Some(version) => Some(version@),
                    None => None,
                },
            ),
    {
        self.sync_in_flight = false;
        self.last_known_token = version;
    }

    /// Takes note that a sync failed: none is under way any more, and the
    /// version last seen is as it was.
    pub fn sync_failed(&mut self)
        ensures
            final(self)@ == failed(old(self)@),
    {
        self.sync_in_flight = false;
    }

    /// Takes note that the location has changed: the version last seen is
    /// forgotten.
    pub fn location_changed(&mut self)
        ensures
            final(self)@ == relocated(old(self)@),
    {
        self.last_known_token = None;
    }
}

/// While a sync is under way no other starts: with credential and location
/// set, a push, a pull or a push after an edit is refused as
/// `AlreadyInProgress`, which leaves the state as it is and gives out no
/// order.
pub proof fn lemma_single_flight(settings: SettingsView, state: SyncState)
    requires
        settings.github_token.len() > 0,
        settings.github_repo.len() > 0,
        state.sync_in_flight,
    ensures
        refusal(settings, state) == Some(SyncRefusal::AlreadyInProgress),
        refusal(settings, started(state)) == Some(SyncRefusal::AlreadyInProgress),
{
}

/// A sync that starts makes the next one wait: from its start until it comes
/// back, every other sync is refused.
pub proof fn lemma_started_sync_blocks_others(settings: SettingsView, state: SyncState)
    requires
        refusal(settings, state) is None,
    ensures
        refusal(settings, started(state)) == Some(SyncRefusal::AlreadyInProgress),
{
}

/// A sync that fails, by a version mismatch or otherwise, leaves the version
/// last seen as it was. A pull that then succeeds makes the version that it
/// saw the one last seen, and the push that follows it is not refused and
/// names that version.
pub proof fn lemma_pull_then_push_after_conflict(
    settings: SettingsView,
    state: SyncState,
    folders: Seq<FolderView>,
    fresh: Seq<char>,
)
    requires
        settings.github_token.len() > 0,
        settings.github_repo.len() > 0,
    ensures
        failed(started(state)).last_known_token == state.last_known_token,
        refusal(settings, failed(started(state))) is None,
        refusal(settings, succeeded(started(failed(started(state))), Some(fresh))) is None,
        push_order(
            settings,
            succeeded(started(failed(started(state))), Some(fresh)),
            folders,
        ).sha == Some(fresh),
{
}

/// Only a sync that succeeds changes the version last seen: starting one and
/// failing one do not.
pub proof fn lemma_version_changes_only_on_success(state: SyncState)
    ensures
        started(state).last_known_token == state.last_known_token,
        failed(state).last_known_token == state.last_known_token,
{
}

} // verus!
