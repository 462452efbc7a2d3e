//! The reconciler: what is done with each file that the store tracks.
//!
//! The store is walked by the driver. Every entry of the walk comes here
//! with its path below the store's root, name by name, with its kind, and
//! with whether the home directory has anything at the same path. A tracked
//! file is copied from the home directory where the home directory has it,
//! and deleted from the store where it has not. Nothing else is touched.

use vstd::prelude::*;
use vstd::string::*;
use crate::text::starts_with;

verus! {

/// The kind of an entry, as the walk reports it.
#[derive(Clone, Copy, Debug, PartialEq, Eq)]
pub enum EntryKind {
    File,
    Directory,
    Other,
}

/// What is done with an entry of the store.
#[derive(Clone, Copy, Debug, PartialEq, Eq)]
pub enum FileAction {
    /// Nothing: the entry is not a tracked file.
    Skip,
    /// The file in the home directory is copied over the one in the store.
    Copy,
    /// The file in the store is deleted.
    Delete,
}

/// An entry of the walk through the store.
#[derive(Clone, Debug, PartialEq, Eq)]
pub struct StoreEntry {
    /// The names from the store's root down to the entry.
    pub path: Vec<String>,
    pub kind: EntryKind,
    /// Whether the home directory has anything at `path`. Read for tracked
    /// files only.
    pub in_home: bool,
}

/// The mathematical value of a `StoreEntry`.
pub struct StoreEntryView {
    pub path: Seq<Seq<char>>,
    pub kind: EntryKind,
    pub in_home: bool,
}

impl View for StoreEntry {
    type V = StoreEntryView;

    open spec fn view(&self) -> StoreEntryView {
        StoreEntryView { path: self.path.deep_view(), kind: self.kind, in_home: self.in_home }
    }
}

/// Whether a name belongs to the version-control engine: it begins with `.git`.
pub open spec fn is_git_name(name: Seq<char>) -> bool {
    ".git"@.is_prefix_of(name)
}

/// Whether a path leads through a name of the version-control engine.
pub open spec fn excluded(path: Seq<Seq<char>>) -> bool {
    exists|i: int| 0 <= i < path.len() && is_git_name(#[trigger] path[i])
}

/// Whether an entry is a tracked file: a regular file below the store's root
/// whose path is not excluded.
pub open spec fn is_tracked_file(path: Seq<Seq<char>>, kind: EntryKind) -> bool {
    kind is File && path.len() > 0 && !excluded(path)
}

/// What is done with an entry.
pub open spec fn action_for(entry: StoreEntryView) -> FileAction {
    if !is_tracked_file(entry.path, entry.kind) {
        FileAction::Skip
    } else if entry.in_home {
        FileAction::Copy
    } else {
        FileAction::Delete
    }
}

/// A path as it is shown: its names with a slash between them.
pub open spec fn shown(path: Seq<Seq<char>>) -> Seq<char>
    decreases path.len(),
{
    if path.len() == 0 {
        Seq::empty()
    } else if path.len() == 1 {
        path[0]
    } else {
        shown(path.drop_last()) + "/"@ + path.last()
    }
}

/// The line that tells of a file that could not be copied or deleted.
pub open spec fn warning_line(path: Seq<Seq<char>>, message: Seq<char>) -> Seq<char> {
    "[WARNING] Unable to sync file "@ + shown(path) + ": "@ + message
}

/// Tells the names of the version-control engine from all others. The walk
/// leaves out every entry with such a name, and what lies below it.
pub fn is_git_object(name: &str) -> (b: bool)
    ensures
        b == is_git_name(name@),
{
    starts_with(name, ".git")
}

/// Tells whether an entry of the walk is a tracked file.
pub fn is_tracked(path: &Vec<String>, kind: EntryKind) -> (b: bool)
    ensures
        b == is_tracked_file(path.deep_view(), kind),
{
    match kind {
        EntryKind::File => {},
        _ => {
            return false;
        },
    }
    if path.len() == 0 {
        return false;
    }
    let mut i: usize = 0;
    while i < path.len()
        invariant
            i <= path.len(),
            forall|k: int| 0 <= k < i ==> !is_git_name(#[trigger] path.deep_view()[k]),
        decreases path.len() - i,
    {
        if is_git_object(path[i].as_str()) {
            assert(is_git_name(path.deep_view()[i as int]));
            return false;
        }
        i = i + 1;
    }
    true
}

/// Decides what is done with one entry: nothing unless it is a tracked file,
/// a copy where the home directory has the file, a deletion where it has not.
pub fn sync_path(entry: &StoreEntry) -> (action: FileAction)
    ensures
        action == action_for(entry@),
{
    if !is_tracked(&entry.path, entry.kind) {
        FileAction::Skip
    } else if entry.in_home {
        FileAction::Copy
    } else {
        FileAction::Delete
    }
}

/// Decides what is done with every entry of a walk, in the walk's order.
pub fn sync_files(entries: &Vec<StoreEntry>) -> (plan: Vec<FileAction>)
    ensures
        plan@.len() == entries@.len(),
        forall|i: int| 0 <= i < entries@.len() ==> plan@[i] == action_for(#[trigger] entries@[i]@),
{
    let mut plan: Vec<FileAction> = Vec::new();
    let mut i: usize = 0;
    while i < entries.len()
        invariant
            i <= entries.len(),
            plan@.len() == i,
            forall|k: int| 0 <= k < i ==> plan@[k] == action_for(#[trigger] entries@[k]@),
        decreases entries.len() - i,
    {
        plan.push(sync_path(&entries[i]));
        i = i + 1;
    }
    plan
}

/// A path as it is shown: its names with a slash between them.
pub fn show_path(path: &Vec<String>) -> (text: String)
    ensures
        text@ == shown(path.deep_view()),
{
    let mut text = String::new();
    let mut i: usize = 0;
    while i < path.len()
        invariant
            i <= path.len(),
            text@ == shown(path.deep_view().subrange(0, i as int)),
        decreases path.len() - i,
    {
        proof {
            let front = path.deep_view().subrange(0, i + 1);
            assert(front.drop_last() =~= path.deep_view().subrange(0, i as int));
            assert(front.last() == path@[i as int]@);
        }
        if i > 0 {
            text.append("/");
        }
        text.append(path[i].as_str());
        i = i + 1;
    }
    assert(path.deep_view().subrange(0, path.len() as int) =~= path.deep_view());
    text
}

/// The line that tells of a file that could not be copied or deleted. Such a
/// failure is a warning: the pass goes on with the next file.
pub fn reconcile_warning(path: &Vec<String>, message: &str) -> (line: String)
    ensures
        line@ == warning_line(path.deep_view(), message@),
{
    let mut line = "[WARNING] Unable to sync file ".to_owned();
    let text = show_path(path);
    line.append(text.as_str());
    line.append(": ");
    line.append(message);
    line
}

} // verus!
