//! The JSON form of the bookmark tree: how a store is written as a JSON value
//! and which JSON values are read as a store.

use crate::document::{default_folders, default_store, Bookmark, BookmarkStore, BookmarkView, Folder, FolderView};
use crate::json::{
    field, json_compact_text, json_parsed, json_pretty_text, lemma_array_tree, lemma_member_at, lemma_object_tree,
    member_trees, text_field, tree, trees, Json, JsonValue,
};
use vstd::prelude::*;

verus! {

/// A bookmark as JSON: an object with its name and its URL.
pub open spec fn bookmark_json(bookmark: BookmarkView) -> JsonValue {
    JsonValue::Object(
        seq![
            ("name"@, JsonValue::Text(bookmark.name)),
            ("url"@, JsonValue::Text(bookmark.url)),
        ],
    )
}

/// A folder as JSON: an object with its name, whether it is open, and the
/// array of its bookmarks.
pub open spec fn folder_json(folder: FolderView) -> JsonValue {
    JsonValue::Object(
        seq![
            ("name"@, JsonValue::Text(folder.name)),
            ("expanded"@, JsonValue::Bool(folder.expanded)),
            (
                "bookmarks"@,
                JsonValue::Array(folder.bookmarks.map_values(|b: BookmarkView| bookmark_json(b))),
            ),
        ],
    )
}

/// The folders as JSON: the array of them, in order.
pub open spec fn folders_json(folders: Seq<FolderView>) -> JsonValue {
    JsonValue::Array(folders.map_values(|f: FolderView| folder_json(f)))
}

/// A store as JSON: an object whose one member is the array of its folders.
pub open spec fn store_json(folders: Seq<FolderView>) -> JsonValue {
    JsonValue::Object(seq![("folders"@, folders_json(folders))])
}

/// The bookmark that a JSON value is read as: an object with strings under
/// `name` and `url`. Other members are passed over.
pub open spec fn json_bookmark(value: JsonValue) -> Option<BookmarkView> {
    match (text_field(value, "name"@), text_field(value, "url"@)) {
        (Some(name), Some(url)) => Some(BookmarkView { name, url }),
        _ => None,
    }
}

/// The bookmarks that an array's items are read as, if each is a bookmark.
pub open spec fn json_bookmarks(items: Seq<JsonValue>) -> Option<Seq<BookmarkView>> {
    if forall|i: int| 0 <= i < items.len() ==> (#[trigger] json_bookmark(items[i])) is Some {
        Some(items.map_values(|v: JsonValue| json_bookmark(v)->0))
    } else {
        None
    }
}

/// Whether a folder's JSON says it is open: what stands under `expanded`, and
/// open where nothing stands there. Anything but a truth value is refused.
pub open spec fn json_expanded(value: JsonValue) -> Option<bool> {
    match field(value, "expanded"@) {
        None => Some(true),
        Some(JsonValue::Bool(open)) => Some(open),
        Some(_) => None,
    }
}

/// The folder that a JSON value is read as: an object with a string under
/// `name`, an array of bookmarks under `bookmarks`, and perhaps `expanded`.
pub open spec fn json_folder(value: JsonValue) -> Option<FolderView> {
    match (text_field(value, "name"@), json_expanded(value), field(value, "bookmarks"@)) {
        (Some(name), Some(expanded), Some(JsonValue::Array(items))) => match json_bookmarks(
            items,
        ) {
            Some(bookmarks) => Some(FolderView { name, expanded, bookmarks }),
            None => None,
        },
        _ => None,
    }
}

/// The folders that an array's items are read as, if each is a folder.
pub open spec fn json_folders(items: Seq<JsonValue>) -> Option<Seq<FolderView>> {
    if forall|i: int| 0 <= i < items.len() ==> (#[trigger] json_folder(items[i])) is Some {
        Some(items.map_values(|v: JsonValue| json_folder(v)->0))
    } else {
        None
    }
}

/// The store that a JSON value is read as: an object with an array of folders
/// under `folders`.
pub open spec fn json_store(value: JsonValue) -> Option<Seq<FolderView>> {
    match field(value, "folders"@) {
        Some(JsonValue::Array(items)) => json_folders(items),
        _ => None,
    }
}

impl Bookmark {
    /// Writes the bookmark as a JSON value.
    pub fn to_json(&self) -> (json: Json)
        ensures
            json@ == bookmark_json(self@),
    {
        let mut members: Vec<(String, Json)> = Vec::new();
        members.push(("name".to_owned(), Json::Text(self.name.clone())));
        members.push(("url".to_owned(), Json::Text(self.url.clone())));
        proof {
            lemma_object_tree(members);
            assert(member_trees(members@) =~= bookmark_json(self@)->Object_0);
        }
        Json::Object(members)
    }

    /// Reads a JSON value as a bookmark.
    pub fn from_json(json: &Json) -> (bookmark: Option<Bookmark>)
        ensures
            bookmark is Some == json_bookmark(json@) is Some,
            bookmark is Some ==> bookmark->0@ == json_bookmark(json@)->0,
    {
        match (json.text_at("name"), json.text_at("url")) {
            (Some(name), Some(url)) => Some(Bookmark { name: name.clone(), url: url.clone() }),
            _ => None,
        }
    }
}

/// Writes bookmarks as JSON values, one for one.
fn bookmarks_to_json(bookmarks: &Vec<Bookmark>) -> (items: Vec<Json>)
    ensures
        trees(items@) == bookmarks@.map_values(|b: Bookmark| b@).map_values(
            |b: BookmarkView| bookmark_json(b),
        ),
{
    let mut items: Vec<Json> = Vec::new();
    let mut i: usize = 0;
    while i < bookmarks.len()
        invariant
            i <= bookmarks.len(),
            items.len() == i,
            forall|k: int| 0 <= k < i ==> tree(items[k]) == bookmark_json(bookmarks[k]@),
        decreases bookmarks.len() - i,
    {
        items.push(bookmarks[i].to_json());
        i += 1;
    }
    assert(trees(items@) =~= bookmarks@.map_values(|b: Bookmark| b@).map_values(
        |b: BookmarkView| bookmark_json(b),
    ));
    items
}

/// Reads JSON values as bookmarks, one for one, or not at all.
fn bookmarks_from_json(items: &Vec<Json>) -> (bookmarks: Option<Vec<Bookmark>>)
    ensures
        bookmarks is Some == json_bookmarks(trees(items@)) is Some,
        bookmarks is Some ==> bookmarks->0@.map_values(|b: Bookmark| b@) == json_bookmarks(
            trees(items@),
        )->0,
{
    let mut bookmarks: Vec<Bookmark> = Vec::new();
    let mut i: usize = 0;
    while i < items.len()
        invariant
            i <= items.len(),
            bookmarks.len() == i,
            forall|k: int| 0 <= k < i ==> json_bookmark(tree(#[trigger] items[k])) == Some(bookmarks[k]@),
        decreases items.len() - i,
    {
        match Bookmark::from_json(&items[i]) {
            Some(bookmark) => {
                bookmarks.push(bookmark);
            },
            None => {
                assert(json_bookmark(trees(items@)[i as int]) is None);
                return None;
            },
        }
        i += 1;
    }
    proof {
        assert forall|k: int| 0 <= k < trees(items@).len() implies (#[trigger] json_bookmark(
            trees(items@)[k],
        )) is Some by {
            assert(json_bookmark(tree(items[k])) is Some);
        }
        assert(bookmarks@.map_values(|b: Bookmark| b@) =~= json_bookmarks(trees(items@))->0) by {
            assert forall|k: int| 0 <= k < items.len() implies bookmarks[k]@ == json_bookmark(
                trees(items@)[k],
            )->0 by {
                assert(json_bookmark(tree(items[k])) == Some(bookmarks[k]@));
            }
        }
    }
    Some(bookmarks)
}

impl Folder {
    /// Writes the folder as a JSON value.
    pub fn to_json(&self) -> (json: Json)
        ensures
            json@ == folder_json(self@),
    {
        let items = bookmarks_to_json(&self.bookmarks);
        let mut members: Vec<(String, Json)> = Vec::new();
        members.push(("name".to_owned(), Json::Text(self.name.clone())));
        members.push(("expanded".to_owned(), Json::Bool(self.expanded)));
        proof {
            lemma_array_tree(items);
        }
        members.push(("bookmarks".to_owned(), Json::Array(items)));
        proof {
            lemma_object_tree(members);
            assert(member_trees(members@) =~= folder_json(self@)->Object_0);
        }
        Json::Object(members)
    }

    /// Reads a JSON value as a folder. A folder that does not say whether it
    /// is open is open.
    pub fn from_json(json: &Json) -> (folder: Option<Folder>)
        ensures
            folder is Some == json_folder(json@) is Some,
            folder is Some ==> folder->0@ == json_folder(json@)->0,
    {
        let name = match json.text_at("name") {
            Some(name) => name.clone(),
            None => {
                return None;
            },
        };
        let expanded = match json.get("expanded") {
            None => crate::document::default_true(),
            Some(value) => match value.as_bool() {
                Some(open) => open,
                None => {
                    return None;
                },
            },
        };
        let items = match json.get("bookmarks") {
            Some(value) => match value.as_array() {
                Some(items) => items,
                None => {
                    return None;
                },
            },
            None => {
                return None;
            },
        };
        match bookmarks_from_json(items) {
            Some(bookmarks) => Some(Folder { name, expanded, bookmarks }),
            None => None,
        }
    }
}

/// Writes folders as JSON values, one for one.
fn folders_to_json(folders: &Vec<Folder>) -> (items: Vec<Json>)
    ensures
        trees(items@) == folders@.map_values(|f: Folder| f@).map_values(
            |f: FolderView| folder_json(f),
        ),
{
    let mut items: Vec<Json> = Vec::new();
    let mut i: usize = 0;
    while i < folders.len()
        invariant
            i <= folders.len(),
            items.len() == i,
            forall|k: int| 0 <= k < i ==> tree(items[k]) == folder_json(folders[k]@),
        decreases folders.len() - i,
    {
        items.push(folders[i].to_json());
        i += 1;
    }
    assert(trees(items@) =~= folders@.map_values(|f: Folder| f@).map_values(
        |f: FolderView| folder_json(f),
    ));
    items
}

/// Reads JSON values as folders, one for one, or not at all.
fn folders_from_json(items: &Vec<Json>) -> (folders: Option<Vec<Folder>>)
    ensures
        folders is Some == json_folders(trees(items@)) is Some,
        folders is Some ==> folders->0@.map_values(|f: Folder| f@) == json_folders(
            trees(items@),
        )->0,
{
    let mut folders: Vec<Folder> = Vec::new();
    let mut i: usize = 0;
    while i < items.len()
        invariant
            i <= items.len(),
            folders.len() == i,
            forall|k: int| 0 <= k < i ==> json_folder(tree(#[trigger] items[k])) == Some(folders[k]@),
        decreases items.len() - i,
    {
        match Folder::from_json(&items[i]) {
            Some(folder) => {
                folders.push(folder);
            },
            None => {
                assert(json_folder(trees(items@)[i as int]) is None);
                return None;
            },
        }
        i += 1;
    }
    proof {
        assert forall|k: int| 0 <= k < trees(items@).len() implies (#[trigger] json_folder(
            trees(items@)[k],
        )) is Some by {
            assert(json_folder(tree(items[k])) is Some);
        }
        assert(folders@.map_values(|f: Folder| f@) =~= json_folders(trees(items@))->0) by {
            assert forall|k: int| 0 <= k < items.len() implies folders[k]@ == json_folder(
                trees(items@)[k],
            )->0 by {
                assert(json_folder(tree(items[k])) == Some(folders[k]@));
            }
        }
    }
    Some(folders)
}

/// The store that a text is read as: the store of the JSON value that the
/// text holds.
pub open spec fn text_store(text: Seq<char>) -> Option<Seq<FolderView>> {
    match json_parsed(text) {
        Some(value) => json_store(value),
        None => None,
    }
}

/// The store that a session starts with, given what the saved file held, if
/// it could be read: the saved store, or the default one.
pub open spec fn loaded_store(data: Option<Seq<char>>) -> Seq<FolderView> {
    match data {
        Some(text) => match text_store(text) {
            Some(folders) => folders,
            None => default_folders(),
        },
        None => default_folders(),
    }
}

impl BookmarkStore {
    /// Writes the store as a JSON value.
    pub fn to_json(&self) -> (json: Json)
        ensures
            json@ == store_json(self@),
    {
        let items = folders_to_json(&self.folders);
        let mut members: Vec<(String, Json)> = Vec::new();
        proof {
            lemma_array_tree(items);
        }
        members.push(("folders".to_owned(), Json::Array(items)));
        proof {
            lemma_object_tree(members);
            assert(member_trees(members@) =~= store_json(self@)->Object_0);
        }
        Json::Object(members)
    }

    /// Reads a JSON value as a store.
    pub fn from_json(json: &Json) -> (store: Option<BookmarkStore>)
        ensures
            store is Some == json_store(json@) is Some,
            store is Some ==> store->0@ == json_store(json@)->0,
    {
        let items = match json.get("folders") {
            Some(value) => match value.as_array() {
                Some(items) => items,
                None => {
                    return None;
                },
            },
            None => {
                return None;
            },
        };
        match folders_from_json(items) {
            Some(folders) => Some(BookmarkStore { folders }),
            None => None,
        }
    }

    /// Reads a text as a store: `None` where the text is not JSON or its value
    /// is not a store.
    pub fn from_text(text: &str) -> (store: Option<BookmarkStore>)
        ensures
            store is Some == text_store(text@) is Some,
            store is Some ==> store->0@ == text_store(text@)->0,
    {
        match Json::parse(text) {
            Some(json) => BookmarkStore::from_json(&json),
            None => None,
        }
    }

    /// The store to start with. `data` is what the saved file held, or `None`
    /// where it could not be read. A file that is missing or does not hold a
    /// store gives the default store.
    pub fn load(data: Option<&str>) -> (store: BookmarkStore)
        ensures
            store@ == loaded_store(
                match data {
                    Some(text) => Some(text@),
                    None => None,
                },
            ),
    {
        match data {
            Some(text) => match BookmarkStore::from_text(text) {
                Some(store) => store,
                None => default_store(),
            },
            None => default_store(),
        }
    }

    /// The folders as JSON text on one line, for the view that shows them.
    pub fn folders_text(&self) -> (text: Option<String>)
        ensures
            text is Some,
            json_compact_text(folders_json(self@)) == Some(text->0@),
    {
        let items = folders_to_json(&self.folders);
        proof {
            lemma_array_tree(items);
        }
        Json::Array(items).to_compact_text()
    }

    /// The text to save: the store's JSON value, indented. Every store has
    /// one.
    pub fn save(&self) -> (text: Option<String>)
        ensures
            text is Some,
            json_pretty_text(store_json(self@)) == Some(text->0@),
    {
        self.to_json().to_pretty_text()
    }
}

/// The keys of a bookmark's and a folder's members differ from each other.
proof fn lemma_keys_differ()
    ensures
        "name"@ != "url"@,
        "name"@ != "expanded"@,
        "name"@ != "bookmarks"@,
        "expanded"@ != "bookmarks"@,
{
    reveal_strlit("name");
    reveal_strlit("url");
    reveal_strlit("expanded");
    reveal_strlit("bookmarks");
    assert("name"@.len() == 4);
    assert("url"@.len() == 3);
    assert("expanded"@.len() == 8);
    assert("bookmarks"@.len() == 9);
}

/// A bookmark's JSON value is read back as that bookmark.
pub proof fn lemma_bookmark_read_back(bookmark: BookmarkView)
    ensures
        json_bookmark(bookmark_json(bookmark)) == Some(bookmark),
{
    lemma_keys_differ();
    let members = bookmark_json(bookmark)->Object_0;
    lemma_member_at(members, "name"@, 0);
    lemma_member_at(members, "url"@, 1);
}

/// A folder's JSON value is read back as that folder, empty or not.
pub proof fn lemma_folder_read_back(folder: FolderView)
    ensures
        json_folder(folder_json(folder)) == Some(folder),
{
    lemma_keys_differ();
    let members = folder_json(folder)->Object_0;
    lemma_member_at(members, "name"@, 0);
    lemma_member_at(members, "expanded"@, 1);
    lemma_member_at(members, "bookmarks"@, 2);
    let items = folder.bookmarks.map_values(|b: BookmarkView| bookmark_json(b));
    assert forall|i: int| 0 <= i < items.len() implies (#[trigger] json_bookmark(items[i]))
        == Some(folder.bookmarks[i]) by {
        lemma_bookmark_read_back(folder.bookmarks[i]);
    }
    assert(json_bookmarks(items)->0 =~= folder.bookmarks);
}

/// Reading a store's JSON value gives the store back: the same folders in the
/// same order, each with the same bookmarks in the same order. This holds of
/// every store, one without folders and one with empty folders included.
pub proof fn lemma_store_read_back(folders: Seq<FolderView>)
    ensures
        json_store(store_json(folders)) == Some(folders),
{
    let items = folders.map_values(|f: FolderView| folder_json(f));
    lemma_member_at(store_json(folders)->Object_0, "folders"@, 0);
    assert forall|i: int| 0 <= i < items.len() implies (#[trigger] json_folder(items[i])) == Some(
        folders[i],
    ) by {
        lemma_folder_read_back(folders[i]);
    }
    assert(json_folders(items)->0 =~= folders);
}

/// Where the text written for a store's JSON value is read as that value
/// again, loading what was saved gives the store that was saved.
pub proof fn lemma_load_after_save(folders: Seq<FolderView>, saved: Seq<char>)
    requires
        json_pretty_text(store_json(folders)) == Some(saved),
        json_parsed(saved) == Some(store_json(folders)),
    ensures
        loaded_store(Some(saved)) == folders,
{
    lemma_store_read_back(folders);
}

/// Without a readable file, and with one that holds no JSON or no store, a
/// session starts with the default store.
pub proof fn lemma_load_falls_back_to_default(text: Seq<char>)
    ensures
        loaded_store(None) == default_folders(),
        json_parsed(text) is None ==> loaded_store(Some(text)) == default_folders(),
        json_parsed(text) is Some && json_store(json_parsed(text)->0) is None ==> loaded_store(
            Some(text),
        ) == default_folders(),
{
}

} // verus!
