//! The bookmark tree: folders in display order, each with its bookmarks, and
//! the edits that the user can make to it.

use vstd::prelude::*;

verus! {

/// A named link. Two bookmarks are the same when name and URL are.
#[derive(Debug, PartialEq, Eq)]
pub struct Bookmark {
    pub name: String,
    pub url: String,
}

/// A folder of bookmarks, shown open or closed.
#[derive(Debug, PartialEq, Eq)]
pub struct Folder {
    pub name: String,
    pub expanded: bool,
    pub bookmarks: Vec<Bookmark>,
}

/// The whole tree. The order of folders and of bookmarks is the display order.
#[derive(Debug, PartialEq, Eq)]
pub struct BookmarkStore {
    pub folders: Vec<Folder>,
}

/// What a bookmark is: its two texts.
pub struct BookmarkView {
    pub name: Seq<char>,
    pub url: Seq<char>,
}

/// What a folder is: its name, whether it is open, and its bookmarks in order.
pub struct FolderView {
    pub name: Seq<char>,
    pub expanded: bool,
    pub bookmarks: Seq<BookmarkView>,
}

impl View for Bookmark {
    type V = BookmarkView;

    open spec fn view(&self) -> BookmarkView {
        BookmarkView { name: self.name@, url: self.url@ }
    }
}

impl View for Folder {
    type V = FolderView;

    open spec fn view(&self) -> FolderView {
        FolderView {
            name: self.name@,
            expanded: self.expanded,
            bookmarks: self.bookmarks@.map_values(|b: Bookmark| b@),
        }
    }
}

impl View for BookmarkStore {
    type V = Seq<FolderView>;

    open spec fn view(&self) -> Seq<FolderView> {
        self.folders@.map_values(|f: Folder| f@)
    }
}

impl Clone for Bookmark {
    fn clone(&self) -> (copy: Self)
        ensures
            copy@ == self@,
    {
        Bookmark { name: self.name.clone(), url: self.url.clone() }
    }
}

impl Clone for Folder {
    fn clone(&self) -> (copy: Self)
        ensures
            copy@ == self@,
    {
        let mut bookmarks: Vec<Bookmark> = Vec::new();
        let mut i: usize = 0;
        while i < self.bookmarks.len()
            invariant
                i <= self.bookmarks.len(),
                bookmarks.len() == i,
                forall|k: int| 0 <= k < i ==> bookmarks[k]@ == self.bookmarks[k]@,
            decreases self.bookmarks.len() - i,
        {
            bookmarks.push(self.bookmarks[i].clone());
            i += 1;
        }
        let copy = Folder { name: self.name.clone(), expanded: self.expanded, bookmarks };
        assert(copy@.bookmarks =~= self@.bookmarks);
        copy
    }
}

impl Clone for BookmarkStore {
    fn clone(&self) -> (copy: Self)
        ensures
            copy@ == self@,
    {
        let mut folders: Vec<Folder> = Vec::new();
        let mut i: usize = 0;
        while i < self.folders.len()
            invariant
                i <= self.folders.len(),
                folders.len() == i,
                forall|k: int| 0 <= k < i ==> folders[k]@ == self.folders[k]@,
            decreases self.folders.len() - i,
        {
            folders.push(self.folders[i].clone());
            i += 1;
        }
        let copy = BookmarkStore { folders };
        assert(copy@ =~= self@);
        copy
    }
}

/// The folders with folder `index` opened if it was closed and closed if it was
/// open; unchanged where there is no such folder.
pub open spec fn toggled(folders: Seq<FolderView>, index: int) -> Seq<FolderView> {
    if 0 <= index < folders.len() {
        folders.update(
            index,
            FolderView {
                name: folders[index].name,
                expanded: !folders[index].expanded,
                bookmarks: folders[index].bookmarks,
            },
        )
    } else {
        folders
    }
}

/// The folders with a new, open, empty folder of that name at the end.
pub open spec fn with_folder(folders: Seq<FolderView>, name: Seq<char>) -> Seq<FolderView> {
    folders.push(FolderView { name, expanded: true, bookmarks: Seq::empty() })
}

/// The folders with a bookmark added at the end of folder `index`; unchanged
/// where there is no such folder.
pub open spec fn with_bookmark(
    folders: Seq<FolderView>,
    index: int,
    name: Seq<char>,
    url: Seq<char>,
) -> Seq<FolderView> {
    if 0 <= index < folders.len() {
        folders.update(
            index,
            FolderView {
                name: folders[index].name,
                expanded: folders[index].expanded,
                bookmarks: folders[index].bookmarks.push(BookmarkView { name, url }),
            },
        )
    } else {
        folders
    }
}

/// Whether folder `folder_index` exists and has a bookmark `bookmark_index`.
pub open spec fn has_bookmark(
    folders: Seq<FolderView>,
    folder_index: int,
    bookmark_index: int,
) -> bool {
    0 <= folder_index < folders.len() && 0 <= bookmark_index
        < folders[folder_index].bookmarks.len()
}

/// The folders without bookmark `bookmark_index` of folder `folder_index`;
/// unchanged where there is no such bookmark.
pub open spec fn without_bookmark(
    folders: Seq<FolderView>,
    folder_index: int,
    bookmark_index: int,
) -> Seq<FolderView> {
    if has_bookmark(folders, folder_index, bookmark_index) {
        folders.update(
            folder_index,
            FolderView {
                name: folders[folder_index].name,
                expanded: folders[folder_index].expanded,
                bookmarks: folders[folder_index].bookmarks.remove(bookmark_index),
            },
        )
    } else {
        folders
    }
}

/// The folders without folder `index` and all it holds; unchanged where there
/// is no such folder.
pub open spec fn without_folder(folders: Seq<FolderView>, index: int) -> Seq<FolderView> {
    if 0 <= index < folders.len() {
        folders.remove(index)
    } else {
        folders
    }
}

impl BookmarkStore {
    /// Opens folder `index` if it is closed and closes it if it is open. Says
    /// whether there was such a folder; if not, nothing changes.
    pub fn toggle_folder(&mut self, index: usize) -> (changed: bool)
        ensures
            changed == (index < old(self)@.len()),
            final(self)@ == toggled(old(self)@, index as int),
    {
        if index < self.folders.len() {
            let folder = &mut self.folders[index];
            folder.expanded = !folder.expanded;
            assert(self@ =~= toggled(old(self)@, index as int));
            true
        } else {
            false
        }
    }

    /// Appends an open, empty folder of that name.
    pub fn add_folder(&mut self, name: String)
        ensures
            final(self)@ == with_folder(old(self)@, name@),
    {
        self.folders.push(Folder { name, expanded: true, bookmarks: Vec::new() });
        assert(self.folders[self.folders.len() - 1]@.bookmarks =~= Seq::empty());
        assert(self@ =~= with_folder(old(self)@, name@));
    }

    /// Appends a bookmark to folder `folder_index`. Says whether there was such
    /// a folder; if not, nothing changes.
    pub fn add_bookmark(&mut self, folder_index: usize, name: String, url: String) -> (changed:
        bool)
        ensures
            changed == (folder_index < old(self)@.len()),
            final(self)@ == with_bookmark(old(self)@, folder_index as int, name@, url@),
    {
        if folder_index < self.folders.len() {
            let folder = &mut self.folders[folder_index];
            folder.bookmarks.push(Bookmark { name, url });
            assert(self.folders[folder_index as int]@.bookmarks =~= old(
                self,
            )@[folder_index as int].bookmarks.push(BookmarkView { name: name@, url: url@ }));
            assert(self@ =~= with_bookmark(old(self)@, folder_index as int, name@, url@));
            true
        } else {
            false
        }
    }

    /// Removes bookmark `bookmark_index` of folder `folder_index`. Says whether
    /// there was such a bookmark; if not, nothing changes.
    pub fn delete_bookmark(&mut self, folder_index: usize, bookmark_index: usize) -> (changed:
        bool)
        ensures
            changed == has_bookmark(old(self)@, folder_index as int, bookmark_index as int),
            final(self)@ == without_bookmark(
                old(self)@,
                folder_index as int,
                bookmark_index as int,
            ),
    {
        if folder_index < self.folders.len() {
            if bookmark_index < self.folders[folder_index].bookmarks.len() {
                let folder = &mut self.folders[folder_index];
                folder.bookmarks.remove(bookmark_index);
                assert(self.folders[folder_index as int]@.bookmarks =~= old(
                    self,
                )@[folder_index as int].bookmarks.remove(bookmark_index as int));
                assert(self@ =~= without_bookmark(
                    old(self)@,
                    folder_index as int,
                    bookmark_index as int,
                ));
                return true;
            }
        }
        false
    }

    /// Removes folder `index` with all its bookmarks. Says whether there was
    /// such a folder; if not, nothing changes.
    pub fn delete_folder(&mut self, index: usize) -> (changed: bool)
        ensures
            changed == (index < old(self)@.len()),
            final(self)@ == without_folder(old(self)@, index as int),
    {
        if index < self.folders.len() {
            self.folders.remove(index);
            assert(self@ =~= without_folder(old(self)@, index as int));
            true
        } else {
            false
        }
    }
}

/// An edit that names a folder or a bookmark that is not there leaves every
/// folder and every bookmark as it was.
pub proof fn lemma_out_of_range_edits_change_nothing(
    folders: Seq<FolderView>,
    folder_index: int,
    bookmark_index: int,
    name: Seq<char>,
    url: Seq<char>,
)
    ensures
        !(0 <= folder_index < folders.len()) ==> {
            &&& toggled(folders, folder_index) == folders
            &&& with_bookmark(folders, folder_index, name, url) == folders
            &&& without_folder(folders, folder_index) == folders
            &&& without_bookmark(folders, folder_index, bookmark_index) == folders
        },
        0 <= folder_index < folders.len() && !(0 <= bookmark_index
            < folders[folder_index].bookmarks.len()) ==> without_bookmark(
            folders,
            folder_index,
            bookmark_index,
        ) == folders,
{
}

/// An edit that finds what it names changes that and nothing else: the
/// other folders stay as they were, and in their places.
pub proof fn lemma_edits_touch_one_folder(
    folders: Seq<FolderView>,
    folder_index: int,
    bookmark_index: int,
    name: Seq<char>,
    url: Seq<char>,
    other: int,
)
    requires
        0 <= folder_index < folders.len(),
        0 <= other < folders.len(),
        other != folder_index,
    ensures
        toggled(folders, folder_index).len() == folders.len(),
        toggled(folders, folder_index)[other] == folders[other],
        toggled(folders, folder_index)[folder_index].expanded != folders[folder_index].expanded,
        with_bookmark(folders, folder_index, name, url).len() == folders.len(),
        with_bookmark(folders, folder_index, name, url)[other] == folders[other],
        with_bookmark(folders, folder_index, name, url)[folder_index].bookmarks.len()
            == folders[folder_index].bookmarks.len() + 1,
        without_bookmark(folders, folder_index, bookmark_index).len() == folders.len(),
        without_bookmark(folders, folder_index, bookmark_index)[other] == folders[other],
        with_folder(folders, name).len() == folders.len() + 1,
        with_folder(folders, name)[other] == folders[other],
        without_folder(folders, folder_index).len() == folders.len() - 1,
{
}

/// What a folder is shown as when its record does not say: open.
pub fn default_true() -> (open: bool)
    ensures
        open,
{
    true
}

/// The tree that a new installation starts with.
pub open spec fn default_folders() -> Seq<FolderView> {
    seq![
        FolderView {
            name: "Documentation"@,
            expanded: true,
            bookmarks: seq![
                BookmarkView {
                    name: "The Rust Programming Language"@,
                    url: "https://doc.rust-lang.org/book/"@,
                },
                BookmarkView { name: "Arch Wiki"@, url: "https://wiki.archlinux.org/"@ },
            ],
        },
        FolderView {
            name: "News"@,
            expanded: true,
            bookmarks: seq![
                BookmarkView { name: "Hacker News"@, url: "https://news.ycombinator.com/"@ },
            ],
        },
    ]
}

/// Builds the tree that a new installation starts with: two folders with
/// three bookmarks between them.
pub fn default_store() -> (store: BookmarkStore)
    ensures
        store@ == default_folders(),
{
    let mut documentation: Vec<Bookmark> = Vec::new();
    documentation.push(
        Bookmark {
            name: "The Rust Programming Language".to_string(),
            url: "https://doc.rust-lang.org/book/".to_string(),
        },
    );
    documentation.push(
        Bookmark { name: "Arch Wiki".to_string(), url: "https://wiki.archlinux.org/".to_string() },
    );
    let mut news: Vec<Bookmark> = Vec::new();
    news.push(
        Bookmark {
            name: "Hacker News".to_string(),
            url: "https://news.ycombinator.com/".to_string(),
        },
    );
    let mut folders: Vec<Folder> = Vec::new();
    folders.push(
        Folder { name: "Documentation".to_string(), expanded: true, bookmarks: documentation },
    );
    folders.push(Folder { name: "News".to_string(), expanded: true, bookmarks: news });
    let store = BookmarkStore { folders };
    proof {
        assert(store.folders[0]@.bookmarks =~= default_folders()[0].bookmarks);
        assert(store.folders[1]@.bookmarks =~= default_folders()[1].bookmarks);
        assert(store@ =~= default_folders());
    }
    store
}

} // verus!
