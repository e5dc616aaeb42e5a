//! The pages that the views start with.

use crate::codec::folders_json;
use crate::document::{BookmarkStore, FolderView};
use crate::json::json_compact_text;
use crate::settings::{Settings, SettingsView};
use crate::text::{escape_quoted, escaped_text};
use vstd::prelude::*;

verus! {

/// The page that the content view shows before a bookmark is chosen.
pub open spec fn welcome_page() -> Seq<char> {
    r#"<!DOCTYPE html>
<html>
<head>
<style>
  :root {
    --base: #1e1e2e;
    --mantle: #181825;
    --text: #cdd6f4;
    --subtext: #a6adc8;
    --accent: #cba6f7;
  }
  * { margin: 0; padding: 0; box-sizing: border-box; }
  body {
    background: var(--base);
    color: var(--text);
    font-family: system-ui, -apple-system, sans-serif;
    display: flex;
    align-items: center;
    justify-content: center;
    height: 100vh;
  }
  .welcome {
    text-align: center;
  }
  .welcome h1 {
    font-size: 24px;
    font-weight: 600;
    color: var(--text);
    margin-bottom: 8px;
  }
  .welcome p {
    font-size: 14px;
    color: var(--subtext);
  }
</style>
</head>
<body>
  <div class="welcome">
    <h1>Select a bookmark</h1>
    <p>Choose a bookmark from the sidebar to get started.</p>
  </div>
</body>
</html>"#@
}

/// Writes the page that the content view shows before a bookmark is chosen.
pub fn welcome_html() -> (page: String)
    ensures
        page@ == welcome_page(),
{
    r#"<!DOCTYPE html>
<html>
<head>
<style>
  :root {
    --base: #1e1e2e;
    --mantle: #181825;
    --text: #cdd6f4;
    --subtext: #a6adc8;
    --accent: #cba6f7;
  }
  * { margin: 0; padding: 0; box-sizing: border-box; }
  body {
    background: var(--base);
    color: var(--text);
    font-family: system-ui, -apple-system, sans-serif;
    display: flex;
    align-items: center;
    justify-content: center;
    height: 100vh;
  }
  .welcome {
    text-align: center;
  }
  .welcome h1 {
    font-size: 24px;
    font-weight: 600;
    color: var(--text);
    margin-bottom: 8px;
  }
  .welcome p {
    font-size: 14px;
    color: var(--subtext);
  }
</style>
</head>
<body>
  <div class="welcome">
    <h1>Select a bookmark</h1>
    <p>Choose a bookmark from the sidebar to get started.</p>
  </div>
</body>
</html>"#.to_owned()
}

/// What the sidebar's page is filled with.
#[derive(Debug, PartialEq, Eq)]
pub struct SidebarParts {
    /// The folders as JSON, for the page's script.
    pub folders_json: String,
    /// Whether a credential is set. The credential itself stays out of the
    /// page.
    pub has_token: bool,
    /// The location, written for the script's single quotes.
    pub repo: String,
    /// What is added to the sidebar's class.
    pub collapsed_class: String,
}

/// What the sidebar's page is filled with, as sequences.
pub struct SidebarPartsView {
    pub folders_json: Seq<char>,
    pub has_token: bool,
    pub repo: Seq<char>,
    pub collapsed_class: Seq<char>,
}

impl View for SidebarParts {
    type V = SidebarPartsView;

    open spec fn view(&self) -> SidebarPartsView {
        SidebarPartsView {
            folders_json: self.folders_json@,
            has_token: self.has_token,
            repo: self.repo@,
            collapsed_class: self.collapsed_class@,
        }
    }
}

/// The parts of the sidebar's page for a store and settings: the folders on
/// one line, or an empty array where they cannot be written; whether there
/// is a credential; the location with its quotes escaped; and the class of a
/// folded sidebar where it is folded.
pub open spec fn sidebar_parts_for(
    folders: Seq<FolderView>,
    settings: SettingsView,
) -> SidebarPartsView {
    SidebarPartsView {
        folders_json: match json_compact_text(folders_json(folders)) {
            Some(text) => text,
            None => "[]"@,
        },
        has_token: settings.github_token.len() > 0,
        repo: escaped_text(settings.github_repo, false),
        collapsed_class: if settings.sidebar_collapsed {
            " collapsed"@
        } else {
            ""@
        },
    }
}

/// Works out what the sidebar's page is filled with.
pub fn sidebar_parts(store: &BookmarkStore, settings: &Settings) -> (parts: SidebarParts)
    ensures
        parts@ == sidebar_parts_for(store@, settings@),
{
    let folders_json = match store.folders_text() {
        Some(text) => text,
        None => "[]".to_owned(),
    };
    let collapsed_class = if settings.sidebar_collapsed {
        " collapsed"
    } else {
        ""
    };
    SidebarParts {
        folders_json,
        has_token: !settings.github_token.as_str().is_empty(),
        repo: escape_quoted(settings.github_repo.as_str(), false),
        collapsed_class: collapsed_class.to_owned(),
    }
}

} // verus!
