use bookmarks_browser::document::{default_store, BookmarkStore};
use bookmarks_browser::pages::{sidebar_parts, welcome_html, SidebarParts};
use bookmarks_browser::settings::Settings;

#[test]
fn welcome_page_invites_to_select_a_bookmark() {
    let page = welcome_html();
    assert!(page.starts_with("<!DOCTYPE html>\n<html>\n<head>\n<style>\n  :root {"));
    assert!(page.contains("<h1>Select a bookmark</h1>"));
    assert!(page.contains("<p>Choose a bookmark from the sidebar to get started.</p>"));
    assert!(page.contains("--accent: #cba6f7;"));
    assert!(page.ends_with("</div>\n</body>\n</html>"));
    assert_eq!(page.len(), 816);
}

#[test]
fn sidebar_parts_of_a_new_installation() {
    let parts = sidebar_parts(&default_store(), &Settings::default());
    assert_eq!(
        parts,
        SidebarParts {
            folders_json: default_store().folders_text().expect("text"),
            has_token: false,
            repo: String::new(),
            collapsed_class: String::new(),
        }
    );
}

#[test]
fn sidebar_parts_hide_the_credential_and_escape_the_location() {
    let settings = Settings {
        sidebar_collapsed: true,
        github_token: "secret".to_string(),
        github_repo: "o'neil/marks".to_string(),
        github_gist_id: String::new(),
    };
    let parts = sidebar_parts(&BookmarkStore { folders: vec![] }, &settings);
    assert_eq!(
        parts,
        SidebarParts {
            folders_json: "[]".to_string(),
            has_token: true,
            repo: "o\\'neil/marks".to_string(),
            collapsed_class: " collapsed".to_string(),
        }
    );
}
