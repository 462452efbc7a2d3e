//! The store as a version-controlled working copy: how it is opened, and the
//! parameters of the four operations that a pass makes on it.
//!
//! There is one remote, `origin`, and one branch, `master`.

use vstd::prelude::*;
use vstd::string::*;
use crate::error::SyncError;
use crate::error::SyncErrorView;
use crate::session::SyncSession;

verus! {

/// What is found at the store's path before the store is opened.
#[derive(Clone, Copy, Debug, PartialEq, Eq)]
pub enum StorePath {
    /// Nothing.
    Absent,
    /// A regular file.
    RegularFile,
    /// A directory.
    Directory,
    /// Anything else.
    Other,
}

/// How the store is brought up.
#[derive(Clone, Copy, Debug, PartialEq, Eq)]
pub enum StorageAction {
    /// Open the working copy that is there.
    Open,
    /// Clone the remote into the store's path.
    Clone,
}

/// A clone of the remote: a full working copy, not a bare repository.
#[derive(Clone, Debug, PartialEq, Eq)]
pub struct CloneRequest {
    pub url: String,
    pub path: String,
    pub bare: bool,
}

/// A destructive pull: fetch from `remote`, then reset the working tree and
/// the index hard to `reference`. `username` is for the credentials.
#[derive(Clone, Debug, PartialEq, Eq)]
pub struct ResetRequest {
    pub remote: String,
    pub reference: String,
    pub username: String,
}

/// One commit of everything under the working tree: stage what matches
/// `pathspec`, then commit on `reference` with its present commit as parent.
#[derive(Clone, Debug, PartialEq, Eq)]
pub struct CommitRequest {
    pub pathspec: String,
    pub reference: String,
    pub message: String,
}

/// A push of `refspec` to `remote`. `username` is for the credentials.
#[derive(Clone, Debug, PartialEq, Eq)]
pub struct PushRequest {
    pub remote: String,
    pub refspec: String,
    pub username: String,
}

/// The only remote.
pub open spec fn origin() -> Seq<char> {
    "origin"@
}

/// The reference that follows the remote's only branch.
pub open spec fn origin_master() -> Seq<char> {
    "refs/remotes/origin/master"@
}

/// How the store is brought up, by what is found at its path: a regular file
/// is in the way, a directory is opened, and anything else is cloned over.
pub open spec fn storage_action(found: StorePath) -> Option<StorageAction> {
    match found {
        StorePath::RegularFile => None,
        StorePath::Directory => Some(StorageAction::Open),
        StorePath::Absent => Some(StorageAction::Clone),
        StorePath::Other => Some(StorageAction::Clone),
    }
}

/// Decides how the store is brought up. A regular file at the store's path is
/// a `StorageConflict`, and nothing is opened, cloned or fetched for it.
pub fn init_storage(session: &SyncSession, found: StorePath) -> (r: Result<StorageAction, SyncError>)
    ensures
        match r {
            Ok(action) => storage_action(found) == Some(action),
            Err(error) => storage_action(found) is None && error@ == (SyncErrorView::StorageConflict {
                path: session@.store_root,
            }),
        },
{
    match found {
        StorePath::RegularFile => Err(
            SyncError::StorageConflict { path: session.store_root().to_owned() },
        ),
        StorePath::Directory => Ok(StorageAction::Open),
        StorePath::Absent => Ok(StorageAction::Clone),
        StorePath::Other => Ok(StorageAction::Clone),
    }
}

/// The clone that brings up a store that is not there yet.
pub fn clone_store(session: &SyncSession) -> (request: CloneRequest)
    ensures
        request.url@ == session@.remote_url,
        request.path@ == session@.store_root,
        !request.bare,
{
    CloneRequest {
        url: session.remote_url().to_owned(),
        path: session.store_root().to_owned(),
        bare: false,
    }
}

/// The pull that starts a run: fetch from `origin`, reset hard to its `master`.
pub fn reset_master(session: &SyncSession) -> (request: ResetRequest)
    ensures
        request.remote@ == origin(),
        request.reference@ == origin_master(),
        request.username@ == session@.username,
{
    ResetRequest {
        remote: "origin".to_owned(),
        reference: "refs/remotes/origin/master".to_owned(),
        username: session.username().to_owned(),
    }
}

/// The commit that records a pass: every path under the working tree, on
/// `HEAD`, with the message `Update files`.
pub fn commit_updates() -> (request: CommitRequest)
    ensures
        request.pathspec@ == "**/*"@,
        request.reference@ == "HEAD"@,
        request.message@ == "Update files"@,
{
    CommitRequest {
        pathspec: "**/*".to_owned(),
        reference: "HEAD".to_owned(),
        message: "Update files".to_owned(),
    }
}

/// The push that publishes what earlier passes committed: `master` to `origin`.
pub fn push_master(session: &SyncSession) -> (request: PushRequest)
    ensures
        request.remote@ == origin(),
        request.refspec@ == origin_master(),
        request.username@ == session@.username,
{
    PushRequest {
        remote: "origin".to_owned(),
        refspec: "refs/remotes/origin/master".to_owned(),
        username: session.username().to_owned(),
    }
}

} // verus!
