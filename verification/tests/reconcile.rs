use flake::reconcile::{
    is_git_object, is_tracked, reconcile_warning, show_path, sync_files, sync_path, EntryKind, FileAction,
    StoreEntry,
};
use std::collections::BTreeMap;

fn names(path: &str) -> Vec<String> {
    path.split('/').filter(|name| !name.is_empty()).map(|name| name.to_string()).collect()
}

fn file(path: &str, in_home: bool) -> StoreEntry {
    StoreEntry { path: names(path), kind: EntryKind::File, in_home }
}

fn directory(path: &str, in_home: bool) -> StoreEntry {
    StoreEntry { path: names(path), kind: EntryKind::Directory, in_home }
}

/// Lists a store as a walk would, marks each entry by the home directory,
/// and carries out what `sync_files` decides.
fn pass(store: &mut BTreeMap<Vec<String>, Vec<u8>>, home: &BTreeMap<Vec<String>, Vec<u8>>) -> Vec<FileAction> {
    let entries: Vec<StoreEntry> = store
        .keys()
        .map(|path| StoreEntry { path: path.clone(), kind: EntryKind::File, in_home: home.contains_key(path) })
        .collect();
    let plan = sync_files(&entries);
    assert_eq!(plan.len(), entries.len());
    for (entry, action) in entries.iter().zip(plan.iter()) {
        match action {
            FileAction::Skip => {}
            FileAction::Copy => {
                store.insert(entry.path.clone(), home[&entry.path].clone());
            }
            FileAction::Delete => {
                store.remove(&entry.path);
            }
        }
    }
    plan
}

fn tree(files: &[(&str, &str)]) -> BTreeMap<Vec<String>, Vec<u8>> {
    files.iter().map(|(path, bytes)| (names(path), bytes.as_bytes().to_vec())).collect()
}

#[test]
fn names_that_begin_with_dot_git_are_git_objects() {
    assert!(is_git_object(".git"));
    assert!(is_git_object(".gitignore"));
    assert!(is_git_object(".gitmodules"));
    assert!(is_git_object(".git-credentials"));
}

#[test]
fn other_names_are_not_git_objects() {
    assert!(!is_git_object(".vimrc"));
    assert!(!is_git_object("git"));
    assert!(!is_git_object(".gi"));
    assert!(!is_git_object(""));
    assert!(!is_git_object("a.git"));
    assert!(!is_git_object(".Git"));
    assert!(!is_git_object(" .git"));
    assert!(!is_git_object(".snowflakes"));
}

#[test]
fn a_regular_file_below_the_root_is_tracked() {
    assert!(is_tracked(&names(".vimrc"), EntryKind::File));
    assert!(is_tracked(&names(".config/nvim/init.vim"), EntryKind::File));
}

#[test]
fn directories_and_other_entries_are_not_tracked() {
    assert!(!is_tracked(&names(".config"), EntryKind::Directory));
    assert!(!is_tracked(&names(".config/socket"), EntryKind::Other));
}

#[test]
fn the_root_itself_is_not_tracked() {
    assert!(!is_tracked(&Vec::new(), EntryKind::File));
    assert!(!is_tracked(&Vec::new(), EntryKind::Directory));
}

#[test]
fn nothing_on_an_excluded_path_is_tracked() {
    assert!(!is_tracked(&names(".git/config"), EntryKind::File));
    assert!(!is_tracked(&names(".gitignore"), EntryKind::File));
    assert!(!is_tracked(&names("vendor/.git/HEAD"), EntryKind::File));
    assert!(!is_tracked(&names("a/b/.gitkeep"), EntryKind::File));
    assert!(!is_tracked(&names(".git/objects/ab/cdef"), EntryKind::File));
}

#[test]
fn a_tracked_file_that_home_has_is_copied() {
    assert_eq!(sync_path(&file(".vimrc", true)), FileAction::Copy);
}

#[test]
fn a_tracked_file_that_home_lacks_is_deleted() {
    assert_eq!(sync_path(&file(".bashrc", false)), FileAction::Delete);
}

#[test]
fn what_is_not_tracked_is_skipped_whatever_home_has() {
    assert_eq!(sync_path(&directory(".config", true)), FileAction::Skip);
    assert_eq!(sync_path(&directory(".config", false)), FileAction::Skip);
    assert_eq!(sync_path(&file(".git/config", true)), FileAction::Skip);
    assert_eq!(sync_path(&file(".git/config", false)), FileAction::Skip);
    assert_eq!(sync_path(&file(".gitignore", false)), FileAction::Skip);
    assert_eq!(sync_path(&StoreEntry { path: Vec::new(), kind: EntryKind::File, in_home: true }), FileAction::Skip);
    assert_eq!(
        sync_path(&StoreEntry { path: names("pipe"), kind: EntryKind::Other, in_home: false }),
        FileAction::Skip
    );
}

#[test]
fn sync_files_decides_entry_by_entry_in_order() {
    let entries = vec![
        directory("", true),
        file(".vimrc", true),
        directory(".config", true),
        file(".config/fish/config.fish", false),
        file(".gitignore", true),
        file(".bashrc", false),
    ];
    assert_eq!(
        sync_files(&entries),
        vec![
            FileAction::Skip,
            FileAction::Copy,
            FileAction::Skip,
            FileAction::Delete,
            FileAction::Skip,
            FileAction::Delete,
        ]
    );
}

#[test]
fn sync_files_of_an_empty_walk_is_empty() {
    assert_eq!(sync_files(&Vec::new()), Vec::<FileAction>::new());
}

#[test]
fn mirror_invariant_on_a_small_tree() {
    let home = tree(&[(".vimrc", "A"), (".config/fish/config.fish", "set -x EDITOR vim"), (".profile", "new")]);
    let mut store = tree(&[(".vimrc", ""), (".config/fish/config.fish", "old")]);
    pass(&mut store, &home);
    assert_eq!(store.get(&names(".vimrc")), Some(&b"A".to_vec()));
    assert_eq!(store.get(&names(".config/fish/config.fish")), Some(&b"set -x EDITOR vim".to_vec()));
}

#[test]
fn a_file_that_only_home_has_is_not_picked_up() {
    let home = tree(&[(".vimrc", "A"), (".profile", "new")]);
    let mut store = tree(&[(".vimrc", "")]);
    pass(&mut store, &home);
    assert!(!store.contains_key(&names(".profile")));
    assert_eq!(store.len(), 1);
}

#[test]
fn deletion_invariant_on_a_small_tree() {
    let home = tree(&[(".vimrc", "A")]);
    let mut store = tree(&[(".vimrc", "A"), (".bashrc", "export X=1"), ("bin/tool", "#!/bin/sh")]);
    pass(&mut store, &home);
    assert!(!store.contains_key(&names(".bashrc")));
    assert!(!store.contains_key(&names("bin/tool")));
    assert_eq!(store, tree(&[(".vimrc", "A")]));
}

#[test]
fn metadata_exclusion_on_a_small_tree() {
    let home = tree(&[(".gitignore", "from home"), (".vimrc", "A")]);
    let mut store = tree(&[(".git/HEAD", "ref: refs/heads/master"), (".gitignore", "target"), (".vimrc", "")]);
    let plan = pass(&mut store, &home);
    assert_eq!(plan, vec![FileAction::Skip, FileAction::Skip, FileAction::Copy]);
    assert_eq!(store.get(&names(".git/HEAD")), Some(&b"ref: refs/heads/master".to_vec()));
    assert_eq!(store.get(&names(".gitignore")), Some(&b"target".to_vec()));
}

#[test]
fn idempotence_on_a_small_tree() {
    let home = tree(&[(".vimrc", "A"), (".zshrc", "Z")]);
    let mut store = tree(&[(".vimrc", ""), (".bashrc", "B"), (".zshrc", "Z"), (".git/index", "i")]);
    pass(&mut store, &home);
    let once = store.clone();
    let second = pass(&mut store, &home);
    assert_eq!(store, once);
    assert!(second.iter().all(|action| *action != FileAction::Delete));
}

#[test]
fn scenario_vimrc_is_copied_from_home() {
    let home = tree(&[(".vimrc", "A")]);
    let mut store = tree(&[(".vimrc", "")]);
    let plan = pass(&mut store, &home);
    assert_eq!(plan, vec![FileAction::Copy]);
    assert_eq!(store, tree(&[(".vimrc", "A")]));
}

#[test]
fn scenario_bashrc_from_the_remote_is_deleted() {
    let home = tree(&[]);
    let mut store = tree(&[(".bashrc", "alias ll='ls -l'")]);
    let plan = pass(&mut store, &home);
    assert_eq!(plan, vec![FileAction::Delete]);
    assert!(store.is_empty());
}

#[test]
fn paths_are_shown_with_slashes() {
    assert_eq!(show_path(&names(".vimrc")), ".vimrc");
    assert_eq!(show_path(&names(".config/fish/config.fish")), ".config/fish/config.fish");
    assert_eq!(show_path(&Vec::new()), "");
    assert_eq!(show_path(&vec!["a".to_string(), "".to_string(), "b".to_string()]), "a//b");
}

#[test]
fn a_warning_names_the_file_and_the_cause() {
    assert_eq!(
        reconcile_warning(&names(".config/fish/config.fish"), "Permission denied (os error 13)"),
        "[WARNING] Unable to sync file .config/fish/config.fish: Permission denied (os error 13)"
    );
    assert_eq!(reconcile_warning(&names(".vimrc"), ""), "[WARNING] Unable to sync file .vimrc: ");
}
