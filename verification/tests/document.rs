use bookmarks_browser::document::{default_store, default_true, Bookmark, BookmarkStore, Folder};

fn bookmark(name: &str, url: &str) -> Bookmark {
    Bookmark { name: name.to_string(), url: url.to_string() }
}

#[test]
fn default_store_has_two_folders_and_three_bookmarks() {
    let store = default_store();
    assert_eq!(store.folders.len(), 2);
    assert_eq!(store.folders[0].name, "Documentation");
    assert!(store.folders[0].expanded);
    assert_eq!(
        store.folders[0].bookmarks,
        vec![
            bookmark("The Rust Programming Language", "https://doc.rust-lang.org/book/"),
            bookmark("Arch Wiki", "https://wiki.archlinux.org/"),
        ]
    );
    assert_eq!(store.folders[1].name, "News");
    assert!(store.folders[1].expanded);
    assert_eq!(
        store.folders[1].bookmarks,
        vec![bookmark("Hacker News", "https://news.ycombinator.com/")]
    );
    let total: usize = store.folders.iter().map(|f| f.bookmarks.len()).sum();
    assert_eq!(total, 3);
}

#[test]
fn default_true_is_true() {
    assert!(default_true());
}

#[test]
fn toggle_folder_flips_only_that_folder() {
    let mut store = default_store();
    assert!(store.toggle_folder(1));
    assert!(store.folders[0].expanded);
    assert!(!store.folders[1].expanded);
    assert!(store.toggle_folder(1));
    assert_eq!(store, default_store());
}

#[test]
fn toggle_folder_out_of_range_changes_nothing() {
    let mut store = default_store();
    assert!(!store.toggle_folder(2));
    assert_eq!(store, default_store());
}

#[test]
fn add_folder_appends_an_open_empty_folder() {
    let mut store = default_store();
    store.add_folder("Work".to_string());
    assert_eq!(store.folders.len(), 3);
    assert_eq!(
        store.folders[2],
        Folder { name: "Work".to_string(), expanded: true, bookmarks: vec![] }
    );
    assert_eq!(store.folders[0], default_store().folders[0]);
    assert_eq!(store.folders[1], default_store().folders[1]);
}

#[test]
fn add_bookmark_appends_to_the_folder() {
    let mut store = default_store();
    assert!(store.add_bookmark(1, "Lobsters".to_string(), "https://lobste.rs/".to_string()));
    assert_eq!(
        store.folders[1].bookmarks,
        vec![
            bookmark("Hacker News", "https://news.ycombinator.com/"),
            bookmark("Lobsters", "https://lobste.rs/"),
        ]
    );
    assert_eq!(store.folders[0], default_store().folders[0]);
}

#[test]
fn add_bookmark_to_missing_folder_changes_nothing() {
    let mut store = default_store();
    assert!(!store.add_bookmark(999, "n".to_string(), "u".to_string()));
    assert_eq!(store, default_store());
}

#[test]
fn delete_bookmark_removes_by_index() {
    let mut store = default_store();
    assert!(store.delete_bookmark(0, 0));
    assert_eq!(
        store.folders[0].bookmarks,
        vec![bookmark("Arch Wiki", "https://wiki.archlinux.org/")]
    );
    assert_eq!(store.folders[1], default_store().folders[1]);
}

#[test]
fn delete_bookmark_out_of_range_changes_nothing() {
    let mut store = default_store();
    assert!(!store.delete_bookmark(0, 999));
    assert_eq!(store, default_store());
    assert!(!store.delete_bookmark(999, 0));
    assert_eq!(store, default_store());
    assert!(!store.delete_bookmark(1, 1));
    assert_eq!(store, default_store());
}

#[test]
fn delete_folder_removes_folder_and_contents() {
    let mut store = default_store();
    assert!(store.delete_folder(0));
    assert_eq!(store.folders.len(), 1);
    assert_eq!(store.folders[0], default_store().folders[1]);
}

#[test]
fn delete_folder_out_of_range_changes_nothing() {
    let mut store = default_store();
    assert!(!store.delete_folder(2));
    assert_eq!(store, default_store());
}

#[test]
fn store_clone_is_equal() {
    let store = default_store();
    let copy: BookmarkStore = store.clone();
    assert_eq!(copy, store);
}
