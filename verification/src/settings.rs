//! What the user has set: kept on this machine only, never sent to the remote.

use crate::json::{
    field, json_parsed, json_pretty_text, lemma_member_absent, lemma_member_at,
    lemma_object_tree, member_trees, Json, JsonValue,
};
use vstd::prelude::*;

verus! {

/// The settings. `github_gist_id` belongs to an older way of naming the
/// remote: it is read from old files and never written.
#[derive(Debug, PartialEq, Eq)]
pub struct Settings {
    pub sidebar_collapsed: bool,
    pub github_token: String,
    pub github_repo: String,
    pub github_gist_id: String,
}

/// What the settings are: a flag and three texts.
pub struct SettingsView {
    pub sidebar_collapsed: bool,
    pub github_token: Seq<char>,
    pub github_repo: Seq<char>,
    pub github_gist_id: Seq<char>,
}

impl View for Settings {
    type V = SettingsView;

    open spec fn view(&self) -> SettingsView {
        SettingsView {
            sidebar_collapsed: self.sidebar_collapsed,
            github_token: self.github_token@,
            github_repo: self.github_repo@,
            github_gist_id: self.github_gist_id@,
        }
    }
}

/// The settings of a new installation: sidebar shown, nothing filled in.
pub open spec fn default_settings() -> SettingsView {
    SettingsView {
        sidebar_collapsed: false,
        github_token: Seq::empty(),
        github_repo: Seq::empty(),
        github_gist_id: Seq::empty(),
    }
}

impl Default for Settings {
    fn default() -> (settings: Settings)
        ensures
            settings@ == default_settings(),
    {
        Settings {
            sidebar_collapsed: false,
            github_token: String::new(),
            github_repo: String::new(),
            github_gist_id: String::new(),
        }
    }
}

impl Clone for Settings {
    fn clone(&self) -> (copy: Self)
        ensures
            copy@ == self@,
    {
        Settings {
            sidebar_collapsed: self.sidebar_collapsed,
            github_token: self.github_token.clone(),
            github_repo: self.github_repo.clone(),
            github_gist_id: self.github_gist_id.clone(),
        }
    }
}

/// The settings as JSON: an object with the three fields in use. The field
/// of the older scheme is not among them.
pub open spec fn settings_json(settings: SettingsView) -> JsonValue {
    JsonValue::Object(
        seq![
            ("sidebar_collapsed"@, JsonValue::Bool(settings.sidebar_collapsed)),
            ("github_token"@, JsonValue::Text(settings.github_token)),
            ("github_repo"@, JsonValue::Text(settings.github_repo)),
        ],
    )
}

/// The flag under `key`: false where nothing stands there, nothing where
/// something else than a truth value does.
pub open spec fn flag_or_false(value: JsonValue, key: Seq<char>) -> Option<bool> {
    match field(value, key) {
        None => Some(false),
        Some(JsonValue::Bool(flag)) => Some(flag),
        Some(_) => None,
    }
}

/// The text under `key`: empty where nothing stands there, nothing where
/// something else than a string does.
pub open spec fn text_or_empty(value: JsonValue, key: Seq<char>) -> Option<Seq<char>> {
    match field(value, key) {
        None => Some(Seq::empty()),
        Some(JsonValue::Text(text)) => Some(text),
        Some(_) => None,
    }
}

/// The settings that a JSON value is read as: an object in which each of the
/// four fields is either missing or of its type. Other members are passed
/// over.
pub open spec fn json_settings(value: JsonValue) -> Option<SettingsView> {
    if !(value is Object) {
        None
    } else {
        match (
            flag_or_false(value, "sidebar_collapsed"@),
            text_or_empty(value, "github_token"@),
            text_or_empty(value, "github_repo"@),
            text_or_empty(value, "github_gist_id"@),
        ) {
            (Some(sidebar_collapsed), Some(github_token), Some(github_repo), Some(github_gist_id)) => {
                Some(SettingsView { sidebar_collapsed, github_token, github_repo, github_gist_id })
            },
            _ => None,
        }
    }
}

/// The settings that a session starts with, given what the saved file held,
/// if it could be read: the saved settings, or the default ones.
pub open spec fn loaded_settings(data: Option<Seq<char>>) -> SettingsView {
    match data {
        Some(text) => match json_parsed(text) {
            Some(value) => match json_settings(value) {
                Some(settings) => settings,
                None => default_settings(),
            },
            None => default_settings(),
        },
        None => default_settings(),
    }
}

/// Reads the flag under `key`, false where it is missing.
fn read_flag(json: &Json, key: &str) -> (flag: Option<bool>)
    ensures
        flag == flag_or_false(json@, key@),
{
    match json.get(key) {
        None => Some(false),
        Some(value) => value.as_bool(),
    }
}

/// Reads the text under `key`, empty where it is missing.
fn read_text(json: &Json, key: &str) -> (text: Option<String>)
    ensures
        text is Some == text_or_empty(json@, key@) is Some,
        text is Some ==> text->0@ == text_or_empty(json@, key@)->0,
{
    match json.get(key) {
        None => Some(String::new()),
        Some(value) => match value.as_text() {
            Some(text) => Some(text.clone()),
            None => None,
        },
    }
}

impl Settings {
    /// Writes the settings as a JSON value, without the field of the older
    /// scheme.
    pub fn to_json(&self) -> (json: Json)
        ensures
            json@ == settings_json(self@),
    {
        let mut members: Vec<(String, Json)> = Vec::new();
        members.push(("sidebar_collapsed".to_owned(), Json::Bool(self.sidebar_collapsed)));
        members.push(("github_token".to_owned(), Json::Text(self.github_token.clone())));
        members.push(("github_repo".to_owned(), Json::Text(self.github_repo.clone())));
        proof {
            lemma_object_tree(members);
            assert(member_trees(members@) =~= settings_json(self@)->Object_0);
        }
        Json::Object(members)
    }

    /// Reads a JSON value as settings.
    pub fn from_json(json: &Json) -> (settings: Option<Settings>)
        ensures
            settings is Some == json_settings(json@) is Some,
            settings is Some ==> settings->0@ == json_settings(json@)->0,
    {
        match json {
            Json::Object(_) => {},
            _ => {
                return None;
            },
        }
        let sidebar_collapsed = match read_flag(json, "sidebar_collapsed") {
            Some(flag) => flag,
            None => {
                return None;
            },
        };
        let github_token = match read_text(json, "github_token") {
            Some(text) => text,
            None => {
                return None;
            },
        };
        let github_repo = match read_text(json, "github_repo") {
            Some(text) => text,
            None => {
                return None;
            },
        };
        let github_gist_id = match read_text(json, "github_gist_id") {
            Some(text) => text,
            None => {
                return None;
            },
        };
        Some(Settings { sidebar_collapsed, github_token, github_repo, github_gist_id })
    }

    /// The settings to start with. `data` is what the saved file held, or
    /// `None` where it could not be read. A file that is missing or does not
    /// hold settings gives the default settings.
    pub fn load(data: Option<&str>) -> (settings: Settings)
        ensures
            settings@ == loaded_settings(
                match data {
                    Some(text) => Some(text@),
                    None => None,
                },
            ),
    {
        match data {
            Some(text) => match Json::parse(text) {
                Some(json) => match Settings::from_json(&json) {
                    Some(settings) => settings,
                    None => Settings::default(),
                },
                None => Settings::default(),
            },
            None => Settings::default(),
        }
    }

    /// The text to save: the JSON value of the settings, indented. All
    /// settings have one.
    pub fn save(&self) -> (text: Option<String>)
        ensures
            text is Some,
            json_pretty_text(settings_json(self@)) == Some(text->0@),
    {
        self.to_json().to_pretty_text()
    }
}

/// The keys of the settings differ from each other.
proof fn lemma_keys_differ()
    ensures
        "sidebar_collapsed"@ != "github_token"@,
        "sidebar_collapsed"@ != "github_repo"@,
        "sidebar_collapsed"@ != "github_gist_id"@,
        "github_token"@ != "github_repo"@,
        "github_token"@ != "github_gist_id"@,
        "github_repo"@ != "github_gist_id"@,
{
    reveal_strlit("sidebar_collapsed");
    reveal_strlit("github_token");
    reveal_strlit("github_repo");
    reveal_strlit("github_gist_id");
    assert("sidebar_collapsed"@.len() == 17);
    assert("github_token"@.len() == 12);
    assert("github_repo"@.len() == 11);
    assert("github_gist_id"@.len() == 14);
}

/// What is written for the settings has no member for the older scheme,
/// whatever the settings hold for it.
pub proof fn lemma_legacy_field_not_written(settings: SettingsView)
    ensures
        field(settings_json(settings), "github_gist_id"@) is None,
{
    lemma_keys_differ();
    lemma_member_absent(settings_json(settings)->Object_0, "github_gist_id"@);
}

/// Settings that were written are read back with the three fields in use as
/// they were and with the field of the older scheme empty.
pub proof fn lemma_settings_read_back(settings: SettingsView)
    ensures
        json_settings(settings_json(settings)) == Some(
            SettingsView {
                sidebar_collapsed: settings.sidebar_collapsed,
                github_token: settings.github_token,
                github_repo: settings.github_repo,
                github_gist_id: Seq::empty(),
            },
        ),
{
    lemma_keys_differ();
    let members = settings_json(settings)->Object_0;
    lemma_member_at(members, "sidebar_collapsed"@, 0);
    lemma_member_at(members, "github_token"@, 1);
    lemma_member_at(members, "github_repo"@, 2);
    lemma_member_absent(members, "github_gist_id"@);
}

/// An old file that still has the field of the older scheme is read with
/// all its fields; once the settings are saved and read again the fields in
/// use are as in the old file, and the old field is gone.
pub proof fn lemma_legacy_migration(old_file: JsonValue, settings: SettingsView)
    requires
        json_settings(old_file) == Some(settings),
    ensures
        flag_or_false(old_file, "sidebar_collapsed"@) == Some(settings.sidebar_collapsed),
        text_or_empty(old_file, "github_token"@) == Some(settings.github_token),
        text_or_empty(old_file, "github_repo"@) == Some(settings.github_repo),
        text_or_empty(old_file, "github_gist_id"@) == Some(settings.github_gist_id),
        field(settings_json(settings), "github_gist_id"@) is None,
        json_settings(settings_json(settings)) is Some,
        json_settings(settings_json(settings))->0.sidebar_collapsed == settings.sidebar_collapsed,
        json_settings(settings_json(settings))->0.github_token == settings.github_token,
        json_settings(settings_json(settings))->0.github_repo == settings.github_repo,
{
    lemma_legacy_field_not_written(settings);
    lemma_settings_read_back(settings);
}

/// Without a readable file, and with one that holds no JSON or no settings,
/// a session starts with the default settings.
pub proof fn lemma_load_falls_back_to_default(text: Seq<char>)
    ensures
        loaded_settings(None) == default_settings(),
        json_parsed(text) is None ==> loaded_settings(Some(text)) == default_settings(),
        json_parsed(text) is Some && json_settings(json_parsed(text)->0) is None
            ==> loaded_settings(Some(text)) == default_settings(),
{
}

} // verus!
