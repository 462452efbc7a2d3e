//! What a pass of the reconciler does to the store, stated over a model of
//! the two directory trees, and the laws that follow.
//!
//! The store's tree is a map from the paths of its regular files to their
//! bytes. The home directory is a map from every path at which it has
//! anything to what it has there. The laws hold of a pass in which every
//! copy and every deletion succeeds; a copy whose source is not a regular
//! file fails and leaves the store's file as it was.

use vstd::prelude::*;
use crate::reconcile::action_for;
use crate::reconcile::excluded;
use crate::reconcile::is_tracked_file;
use crate::reconcile::FileAction;
use crate::reconcile::StoreEntryView;

verus! {

/// What the home directory has at a path.
pub enum HomeItem {
    /// A regular file with these bytes.
    File { bytes: Seq<u8> },
    /// Something that cannot be copied as a file.
    Other,
}

/// The store after one action at `path`.
pub open spec fn perform(
    store: Map<Seq<Seq<char>>, Seq<u8>>,
    home: Map<Seq<Seq<char>>, HomeItem>,
    path: Seq<Seq<char>>,
    action: FileAction,
) -> Map<Seq<Seq<char>>, Seq<u8>> {
    match action {
        FileAction::Skip => store,
        FileAction::Copy => if home.contains_key(path) && home[path] is File {
            store.insert(path, home[path]->bytes)
        } else {
            store
        },
        FileAction::Delete => store.remove(path),
    }
}

/// The store after a pass over `entries`: for each entry in turn, the action
/// that the reconciler decides for it.
pub open spec fn after_pass(
    store: Map<Seq<Seq<char>>, Seq<u8>>,
    home: Map<Seq<Seq<char>>, HomeItem>,
    entries: Seq<StoreEntryView>,
) -> Map<Seq<Seq<char>>, Seq<u8>>
    decreases entries.len(),
{
    if entries.len() == 0 {
        store
    } else {
        perform(
            after_pass(store, home, entries.drop_last()),
            home,
            entries.last().path,
            action_for(entries.last()),
        )
    }
}

/// Whether `entries` is a true account of the two trees: every file of the
/// store lies below its root, those whose path is not excluded are listed as
/// files, what is listed as a tracked file is a file of the store, and each
/// tracked file is marked as in the home directory just when the home
/// directory has something at its path.
pub open spec fn faithful(
    store: Map<Seq<Seq<char>>, Seq<u8>>,
    home: Map<Seq<Seq<char>>, HomeItem>,
    entries: Seq<StoreEntryView>,
) -> bool {
    &&& forall|path: Seq<Seq<char>>| #[trigger] store.contains_key(path) ==> path.len() > 0
    &&& forall|path: Seq<Seq<char>>|
        #[trigger] store.contains_key(path) && !excluded(path) ==> listed(entries, path, entries.len() as int)
    &&& forall|i: int|
        0 <= i < entries.len() && is_tracked_file(#[trigger] entries[i].path, entries[i].kind)
            ==> store.contains_key(entries[i].path) && (entries[i].in_home <==> home.contains_key(
            entries[i].path,
        ))
}

/// Whether one of the first `n` entries is a tracked file at `path`.
pub open spec fn listed(entries: Seq<StoreEntryView>, path: Seq<Seq<char>>, n: int) -> bool {
    exists|i: int|
        0 <= i < n && i < entries.len() && (#[trigger] entries[i]).path == path && is_tracked_file(
            entries[i].path,
            entries[i].kind,
        )
}

/// The mirror of the home directory in the store: of the store's files, those
/// on an excluded path are as they were; of the others, those that the home
/// directory lacks are gone, those that it has as regular files have the
/// home directory's bytes, and the rest are as they were.
pub open spec fn mirrored(
    store: Map<Seq<Seq<char>>, Seq<u8>>,
    home: Map<Seq<Seq<char>>, HomeItem>,
) -> Map<Seq<Seq<char>>, Seq<u8>> {
    Map::new(
        |path: Seq<Seq<char>>| store.contains_key(path) && (excluded(path) || home.contains_key(path)),
        |path: Seq<Seq<char>>|
            if !excluded(path) && home[path] is File {
                home[path]->bytes
            } else {
                store[path]
            },
    )
}

/// The store after the first `n` entries of a faithful account.
spec fn partly_mirrored(
    store: Map<Seq<Seq<char>>, Seq<u8>>,
    home: Map<Seq<Seq<char>>, HomeItem>,
    entries: Seq<StoreEntryView>,
    n: int,
) -> Map<Seq<Seq<char>>, Seq<u8>> {
    Map::new(
        |path: Seq<Seq<char>>|
            store.contains_key(path) && (!listed(entries, path, n) || home.contains_key(path)),
        |path: Seq<Seq<char>>|
            if listed(entries, path, n) && home[path] is File {
                home[path]->bytes
            } else {
                store[path]
            },
    )
}

proof fn pass_mirrors_partly(
    store: Map<Seq<Seq<char>>, Seq<u8>>,
    home: Map<Seq<Seq<char>>, HomeItem>,
    entries: Seq<StoreEntryView>,
    n: int,
)
    requires
        faithful(store, home, entries),
        0 <= n <= entries.len(),
    ensures
        after_pass(store, home, entries.subrange(0, n)) == partly_mirrored(store, home, entries, n),
    decreases n,
{
    let front = entries.subrange(0, n);
    if n == 0 {
        assert(after_pass(store, home, front) =~= partly_mirrored(store, home, entries, n));
    } else {
        pass_mirrors_partly(store, home, entries, n - 1);
        assert(front.drop_last() =~= entries.subrange(0, n - 1));
        let entry = entries[n - 1];
        assert(front.last() == entry);
        let before = partly_mirrored(store, home, entries, n - 1);
        let after = perform(before, home, entry.path, action_for(entry));
        assert(after_pass(store, home, front) == after);
        let goal = partly_mirrored(store, home, entries, n);
        assert forall|path: Seq<Seq<char>>| listed(entries, path, n) <==> (listed(entries, path, n - 1)
            || (path == entry.path && is_tracked_file(entry.path, entry.kind))) by {
            if listed(entries, path, n) {
                let i = choose|i: int|
                    0 <= i < n && i < entries.len() && (#[trigger] entries[i]).path == path
                        && is_tracked_file(entries[i].path, entries[i].kind);
                if i < n - 1 {
                    assert(listed(entries, path, n - 1));
                }
            }
            if listed(entries, path, n - 1) {
                let i = choose|i: int|
                    0 <= i < n - 1 && i < entries.len() && (#[trigger] entries[i]).path == path
                        && is_tracked_file(entries[i].path, entries[i].kind);
                assert(0 <= i < n && entries[i].path == path);
            }
            if path == entry.path && is_tracked_file(entry.path, entry.kind) {
                assert(entries[n - 1].path == path);
            }
        }
        assert(after =~= goal);
    }
}

/// A pass over a faithful account leaves the mirror of the home directory,
/// and adds no file to the store.
pub proof fn pass_mirrors(
    store: Map<Seq<Seq<char>>, Seq<u8>>,
    home: Map<Seq<Seq<char>>, HomeItem>,
    entries: Seq<StoreEntryView>,
)
    requires
        faithful(store, home, entries),
    ensures
        after_pass(store, home, entries) == mirrored(store, home),
        after_pass(store, home, entries).dom().subset_of(store.dom()),
{
    let n = entries.len() as int;
    pass_mirrors_partly(store, home, entries, n);
    assert(entries.subrange(0, n) =~= entries);
    assert forall|path: Seq<Seq<char>>| store.contains_key(path) implies (listed(entries, path, n)
        <==> !excluded(path)) by {
        if listed(entries, path, n) {
            let i = choose|i: int|
                0 <= i < n && i < entries.len() && (#[trigger] entries[i]).path == path
                    && is_tracked_file(entries[i].path, entries[i].kind);
            assert(!excluded(entries[i].path));
        }
    }
    assert(partly_mirrored(store, home, entries, n) =~= mirrored(store, home));
}

/// After a pass, every tracked file that the home directory has as a regular
/// file is in the store with the home directory's bytes.
pub proof fn mirror_invariant(
    store: Map<Seq<Seq<char>>, Seq<u8>>,
    home: Map<Seq<Seq<char>>, HomeItem>,
    entries: Seq<StoreEntryView>,
    path: Seq<Seq<char>>,
)
    requires
        faithful(store, home, entries),
        store.contains_key(path),
        !excluded(path),
        home.contains_key(path),
        home[path] is File,
    ensures
        after_pass(store, home, entries).contains_key(path),
        after_pass(store, home, entries)[path] == home[path]->bytes,
{
    pass_mirrors(store, home, entries);
}

/// After a pass, no tracked file is left in the store that the home
/// directory does not have.
pub proof fn deletion_invariant(
    store: Map<Seq<Seq<char>>, Seq<u8>>,
    home: Map<Seq<Seq<char>>, HomeItem>,
    entries: Seq<StoreEntryView>,
    path: Seq<Seq<char>>,
)
    requires
        faithful(store, home, entries),
        store.contains_key(path),
        !excluded(path),
        !home.contains_key(path),
    ensures
        !after_pass(store, home, entries).contains_key(path),
{
    pass_mirrors(store, home, entries);
}

/// Whatever the walk reports, nothing is decided for an entry on an excluded
/// path but to skip it, and a pass leaves every excluded path of the store
/// as it was: neither copied over, nor deleted, nor created.
pub proof fn metadata_exclusion(
    store: Map<Seq<Seq<char>>, Seq<u8>>,
    home: Map<Seq<Seq<char>>, HomeItem>,
    entries: Seq<StoreEntryView>,
    path: Seq<Seq<char>>,
)
    requires
        excluded(path),
    ensures
        forall|i: int|
            0 <= i < entries.len() && excluded(#[trigger] entries[i].path) ==> action_for(entries[i])
                == FileAction::Skip,
        after_pass(store, home, entries).contains_key(path) == store.contains_key(path),
        store.contains_key(path) ==> after_pass(store, home, entries)[path] == store[path],
    decreases entries.len(),
{
    if entries.len() > 0 {
        metadata_exclusion(store, home, entries.drop_last(), path);
    }
}

/// A second pass changes nothing: with the home directory as it was, the
/// store after two passes is the store after one.
pub proof fn idempotence(
    store: Map<Seq<Seq<char>>, Seq<u8>>,
    home: Map<Seq<Seq<char>>, HomeItem>,
    first: Seq<StoreEntryView>,
    second: Seq<StoreEntryView>,
)
    requires
        faithful(store, home, first),
        faithful(after_pass(store, home, first), home, second),
    ensures
        after_pass(after_pass(store, home, first), home, second) == after_pass(store, home, first),
{
    pass_mirrors(store, home, first);
    pass_mirrors(mirrored(store, home), home, second);
    assert(mirrored(mirrored(store, home), home) =~= mirrored(store, home));
}

} // verus!
