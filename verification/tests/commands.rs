use bookmarks_browser::dispatcher::UserEvent;
use bookmarks_browser::json::Json;

#[test]
fn navigate_wants_a_url() {
    assert_eq!(
        UserEvent::from_message(r#"{"action": "navigate", "url": "https://example.org/"}"#),
        Some(UserEvent::Navigate("https://example.org/".to_string()))
    );
    assert_eq!(UserEvent::from_message(r#"{"action": "navigate"}"#), None);
    assert_eq!(UserEvent::from_message(r#"{"action": "navigate", "url": 5}"#), None);
}

#[test]
fn toggle_folder_wants_an_index() {
    assert_eq!(
        UserEvent::from_message(r#"{"action": "toggle_folder", "folder_index": 3}"#),
        Some(UserEvent::ToggleFolder(3))
    );
    assert_eq!(
        UserEvent::from_message(r#"{"action": "toggle_folder", "folder_index": 0}"#),
        Some(UserEvent::ToggleFolder(0))
    );
    assert_eq!(UserEvent::from_message(r#"{"action": "toggle_folder"}"#), None);
    assert_eq!(
        UserEvent::from_message(r#"{"action": "toggle_folder", "folder_index": -1}"#),
        None
    );
    assert_eq!(
        UserEvent::from_message(r#"{"action": "toggle_folder", "folder_index": 1.5}"#),
        None
    );
    assert_eq!(
        UserEvent::from_message(r#"{"action": "toggle_folder", "folder_index": "1"}"#),
        None
    );
}

#[test]
fn commands_without_anything_beside_them() {
    assert_eq!(
        UserEvent::from_message(r#"{"action": "toggle_sidebar"}"#),
        Some(UserEvent::ToggleSidebar)
    );
    assert_eq!(
        UserEvent::from_message(r#"{"action": "push_to_github"}"#),
        Some(UserEvent::PushToGitHub)
    );
    assert_eq!(
        UserEvent::from_message(r#"{"action": "pull_from_github", "extra": true}"#),
        Some(UserEvent::PullFromGitHub)
    );
}

#[test]
fn add_folder_wants_a_name() {
    assert_eq!(
        UserEvent::from_message(r#"{"action": "add_folder", "name": "Work"}"#),
        Some(UserEvent::AddFolder("Work".to_string()))
    );
    assert_eq!(
        UserEvent::from_message(r#"{"action": "add_folder", "name": ""}"#),
        Some(UserEvent::AddFolder(String::new()))
    );
    assert_eq!(UserEvent::from_message(r#"{"action": "add_folder"}"#), None);
}

#[test]
fn add_bookmark_wants_index_name_and_url() {
    assert_eq!(
        UserEvent::from_message(
            r#"{"action": "add_bookmark", "folder_index": 1, "name": "n", "url": "u"}"#
        ),
        Some(UserEvent::AddBookmark {
            folder_index: 1,
            name: "n".to_string(),
            url: "u".to_string()
        })
    );
    assert_eq!(
        UserEvent::from_message(r#"{"action": "add_bookmark", "name": "n", "url": "u"}"#),
        None
    );
    assert_eq!(
        UserEvent::from_message(r#"{"action": "add_bookmark", "folder_index": 1, "url": "u"}"#),
        None
    );
    assert_eq!(
        UserEvent::from_message(r#"{"action": "add_bookmark", "folder_index": 1, "name": "n"}"#),
        None
    );
}

#[test]
fn delete_commands_want_their_indices() {
    assert_eq!(
        UserEvent::from_message(
            r#"{"action": "delete_bookmark", "folder_index": 2, "bookmark_index": 7}"#
        ),
        Some(UserEvent::DeleteBookmark { folder_index: 2, bookmark_index: 7 })
    );
    assert_eq!(
        UserEvent::from_message(r#"{"action": "delete_bookmark", "folder_index": 2}"#),
        None
    );
    assert_eq!(
        UserEvent::from_message(r#"{"action": "delete_bookmark", "bookmark_index": 7}"#),
        None
    );
    assert_eq!(
        UserEvent::from_message(r#"{"action": "delete_folder", "folder_index": 999}"#),
        Some(UserEvent::DeleteFolder(999))
    );
    assert_eq!(UserEvent::from_message(r#"{"action": "delete_folder"}"#), None);
}

#[test]
fn save_settings_takes_what_is_there() {
    assert_eq!(
        UserEvent::from_message(
            r#"{"action": "save_settings", "github_token": "tok", "github_repo": "me/marks"}"#
        ),
        Some(UserEvent::SaveSettings {
            github_token: "tok".to_string(),
            github_repo: "me/marks".to_string()
        })
    );
    assert_eq!(
        UserEvent::from_message(r#"{"action": "save_settings"}"#),
        Some(UserEvent::SaveSettings { github_token: String::new(), github_repo: String::new() })
    );
    assert_eq!(
        UserEvent::from_message(r#"{"action": "save_settings", "github_token": null, "github_repo": 5}"#),
        Some(UserEvent::SaveSettings { github_token: String::new(), github_repo: String::new() })
    );
}

#[test]
fn what_is_no_command_is_dropped() {
    assert_eq!(UserEvent::from_message(""), None);
    assert_eq!(UserEvent::from_message("not json"), None);
    assert_eq!(UserEvent::from_message("[]"), None);
    assert_eq!(UserEvent::from_message("{}"), None);
    assert_eq!(UserEvent::from_message(r#"{"action": 5}"#), None);
    assert_eq!(UserEvent::from_message(r#"{"action": "auto_sync"}"#), None);
    assert_eq!(UserEvent::from_message(r#"{"action": "Navigate", "url": "u"}"#), None);
    assert_eq!(UserEvent::from_message(r#"{"action": ""}"#), None);
}

#[test]
fn from_json_reads_a_message_that_was_parsed() {
    let message = Json::Object(vec![
        ("action".to_string(), Json::Text("add_folder".to_string())),
        ("name".to_string(), Json::Text("Work".to_string())),
    ]);
    assert_eq!(UserEvent::from_json(&message), Some(UserEvent::AddFolder("Work".to_string())));
    assert_eq!(UserEvent::from_json(&Json::Null), None);
}

#[test]
fn whole_numbers_are_told_from_the_others() {
    let parsed = Json::parse(r#"{"a": 7, "b": -7, "c": 7.0, "d": "7", "e": 18446744073709551615}"#)
        .expect("json");
    assert_eq!(parsed.whole_at("a"), Some(7));
    assert_eq!(parsed.whole_at("b"), None);
    assert_eq!(parsed.whole_at("c"), None);
    assert_eq!(parsed.whole_at("d"), None);
    assert_eq!(parsed.whole_at("e"), Some(u64::MAX));
    assert_eq!(parsed.whole_at("f"), None);
    assert_eq!(parsed.get("a").and_then(|v| v.as_u64()), Some(7));
    assert_eq!(Json::Null.as_u64(), None);
}
