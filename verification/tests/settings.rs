use bookmarks_browser::json::Json;
use bookmarks_browser::settings::Settings;

fn settings(collapsed: bool, token: &str, repo: &str, gist: &str) -> Settings {
    Settings {
        sidebar_collapsed: collapsed,
        github_token: token.to_string(),
        github_repo: repo.to_string(),
        github_gist_id: gist.to_string(),
    }
}

#[test]
fn settings_roundtrip() {
    let settings = Settings {
        sidebar_collapsed: true,
        github_token: "test-token".to_string(),
        github_repo: "user/bookmarks".to_string(),
        ..Default::default()
    };
    let saved = settings.save().expect("save should succeed");

    let loaded = Settings::load(Some(&saved));
    assert_eq!(loaded.sidebar_collapsed, true);
    assert_eq!(loaded.github_token, "test-token");
    assert_eq!(loaded.github_repo, "user/bookmarks");
}

#[test]
fn settings_default_on_missing_file() {
    let loaded = Settings::load(None);
    assert_eq!(loaded.sidebar_collapsed, false);
    assert!(loaded.github_token.is_empty());
    assert!(loaded.github_repo.is_empty());
}

#[test]
fn settings_migration_from_gist() {
    // An old-format settings file with github_gist_id
    let old_json = r#"{"sidebar_collapsed":false,"github_token":"tok","github_gist_id":"abc123"}"#;

    // Load should succeed and populate the legacy field
    let loaded = Settings::load(Some(old_json));
    assert_eq!(loaded.github_token, "tok");
    assert_eq!(loaded.github_gist_id, "abc123");
    assert!(loaded.github_repo.is_empty());

    // Re-save should drop github_gist_id
    let raw = loaded.save().expect("save should succeed");
    assert!(!raw.contains("github_gist_id"));
}

#[test]
fn migration_keeps_the_fields_in_use() {
    let old_json =
        r#"{"sidebar_collapsed":true,"github_token":"tok","github_repo":"me/marks","github_gist_id":"abc123"}"#;
    let loaded = Settings::load(Some(old_json));
    assert_eq!(loaded, settings(true, "tok", "me/marks", "abc123"));
    let raw = loaded.save().expect("save should succeed");
    assert!(!raw.contains("abc123"));
    assert_eq!(Settings::load(Some(&raw)), settings(true, "tok", "me/marks", ""));
}

#[test]
fn save_writes_the_three_fields_in_order() {
    let saved = settings(true, "test-token", "user/bookmarks", "old").save();
    assert_eq!(
        saved,
        Some(
            "{\n  \"sidebar_collapsed\": true,\n  \"github_token\": \"test-token\",\n  \"github_repo\": \"user/bookmarks\"\n}"
                .to_string()
        )
    );
}

#[test]
fn default_settings_are_empty() {
    assert_eq!(Settings::default(), settings(false, "", "", ""));
}

#[test]
fn load_of_a_corrupt_file_gives_the_default_settings() {
    assert_eq!(Settings::load(Some("")), Settings::default());
    assert_eq!(Settings::load(Some("{ not json")), Settings::default());
    assert_eq!(Settings::load(Some("null")), Settings::default());
    assert_eq!(Settings::load(Some("\"text\"")), Settings::default());
    assert_eq!(Settings::load(Some(r#"{"github_token": 5}"#)), Settings::default());
    assert_eq!(Settings::load(Some(r#"{"sidebar_collapsed": "yes"}"#)), Settings::default());
    assert_eq!(
        Settings::load(Some(r#"{"github_token": "t", "github_gist_id": null}"#)),
        Settings::default()
    );
}

#[test]
fn missing_fields_take_their_defaults() {
    assert_eq!(Settings::load(Some("{}")), Settings::default());
    assert_eq!(
        Settings::load(Some(r#"{"github_repo": "me/marks"}"#)),
        settings(false, "", "me/marks", "")
    );
    assert_eq!(
        Settings::load(Some(r#"{"sidebar_collapsed": true, "theme": "dark"}"#)),
        settings(true, "", "", "")
    );
}

#[test]
fn to_json_leaves_the_old_field_out() {
    let json = settings(false, "tok", "me/marks", "abc123").to_json();
    assert_eq!(
        json,
        Json::Object(vec![
            ("sidebar_collapsed".to_string(), Json::Bool(false)),
            ("github_token".to_string(), Json::Text("tok".to_string())),
            ("github_repo".to_string(), Json::Text("me/marks".to_string())),
        ])
    );
    assert_eq!(json.get("github_gist_id"), None);
    assert_eq!(Settings::from_json(&json), Some(settings(false, "tok", "me/marks", "")));
}

#[test]
fn from_json_wants_an_object() {
    assert_eq!(Settings::from_json(&Json::Array(vec![])), None);
    assert_eq!(Settings::from_json(&Json::Null), None);
    assert_eq!(Settings::from_json(&Json::Object(vec![])), Some(Settings::default()));
}

#[test]
fn settings_clone_is_equal() {
    let first = settings(true, "tok", "me/marks", "abc123");
    assert_eq!(first.clone(), first);
}
