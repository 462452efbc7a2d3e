//! The orchestrator: in which order the store is opened, pulled, reconciled,
//! committed and pushed.
//!
//! It is a state machine that performs nothing itself. In every phase but
//! `Failed` one request to the driver is outstanding, `awaited(phase)`. The
//! driver carries the request out and reports an `Event`; `step` moves to the
//! next phase and hands back the next request, or the error that ends the run.
//!
//! A run opens or clones the store, pulls once, and then passes for ever: a
//! pass reconciles, asks for the status, and commits where anything changed
//! or pushes where nothing did, never both; then it waits for the next tick.
//! There is no second pull, and no way back from `Failed`.

use vstd::prelude::*;
use crate::error::GitOperation;
use crate::error::SyncError;
use crate::error::SyncErrorView;
use crate::repository::init_storage;
use crate::repository::storage_action;
use crate::repository::StorageAction;
use crate::repository::StorePath;
use crate::session::SyncSession;
use crate::session::SyncSessionView;

verus! {

/// How far a run has come. Each phase but the last is named for what has
/// been done, and waits for what is done next.
#[derive(Clone, Copy, Debug, PartialEq, Eq)]
pub enum Phase {
    /// Nothing is done; the store's path is being looked at.
    Uninitialized,
    /// The path holds a directory, which is being opened.
    Opening,
    /// The path holds no directory; the remote is being cloned.
    Cloning,
    /// The store is open; the pull is under way.
    Opened,
    /// The store is as the remote has it, or a tick has come: a pass begins
    /// and the files are being reconciled.
    Reset,
    /// The files are reconciled; the status is being asked for.
    Reconciled,
    /// The working tree has changes, which are being committed.
    Dirty,
    /// The working tree has no changes; what is committed is being pushed.
    Clean,
    /// The pass has committed and put the push off; the tick is waited for.
    Committed,
    /// The pass has pushed; the tick is waited for.
    Pushed,
    /// The run has ended in an error.
    Failed,
}

/// What the driver is asked to do.
#[derive(Clone, Copy, Debug, PartialEq, Eq)]
pub enum Action {
    /// Look at what the store's path holds.
    ProbeStore,
    /// Open the working copy at the store's path.
    OpenStore,
    /// Clone the remote into the store's path, as `clone_store` says.
    CloneStore,
    /// Pull, as `reset_master` says.
    ResetToRemoteMaster,
    /// Walk the store and do what `sync_files` decides.
    Reconcile,
    /// Count the paths that differ from the last commit.
    QueryStatus,
    /// Commit, as `commit_updates` says.
    CommitAll,
    /// Push, as `push_master` says.
    PushMasterToOrigin,
    /// Wait for the next tick.
    WaitTick,
    /// Nothing any more.
    Halt,
}

/// What the driver reports of the request that was outstanding.
#[derive(Debug, PartialEq, Eq)]
pub enum Event {
    /// What the store's path holds.
    StoreProbed { found: StorePath },
    /// The request was carried out.
    Done,
    /// The number of paths that differ from the last commit.
    Status { changed: usize },
    /// The tick has come.
    Tick,
    /// The version-control engine has failed at the request.
    Failed { message: String },
}

/// The mathematical value of an `Event`.
pub enum EventView {
    StoreProbed { found: StorePath },
    Done,
    Status { changed: usize },
    Tick,
    Failed { message: Seq<char> },
}

impl View for Event {
    type V = EventView;

    open spec fn view(&self) -> EventView {
        match self {
            Event::StoreProbed { found } => EventView::StoreProbed { found: *found },
            Event::Done => EventView::Done,
            Event::Status { changed } => EventView::Status { changed: *changed },
            Event::Tick => EventView::Tick,
            Event::Failed { message } => EventView::Failed { message: message@ },
        }
    }
}

/// The request that is outstanding in a phase.
pub open spec fn awaited(phase: Phase) -> Action {
    match phase {
        Phase::Uninitialized => Action::ProbeStore,
        Phase::Opening => Action::OpenStore,
        Phase::Cloning => Action::CloneStore,
        Phase::Opened => Action::ResetToRemoteMaster,
        Phase::Reset => Action::Reconcile,
        Phase::Reconciled => Action::QueryStatus,
        Phase::Dirty => Action::CommitAll,
        Phase::Clean => Action::PushMasterToOrigin,
        Phase::Committed => Action::WaitTick,
        Phase::Pushed => Action::WaitTick,
        Phase::Failed => Action::Halt,
    }
}

/// The operation of the version-control engine that is under way in a phase.
pub open spec fn operation(phase: Phase) -> Option<GitOperation> {
    match phase {
        Phase::Opening => Some(GitOperation::Open),
        Phase::Cloning => Some(GitOperation::Open),
        Phase::Opened => Some(GitOperation::Reset),
        Phase::Reconciled => Some(GitOperation::Status),
        Phase::Dirty => Some(GitOperation::Commit),
        Phase::Clean => Some(GitOperation::Push),
        _ => None,
    }
}

/// The phase that follows a status: changes are committed, and where there
/// are none, what was committed before is pushed.
pub open spec fn commit_or_push(changed: usize) -> Phase {
    if changed > 0 {
        Phase::Dirty
    } else {
        Phase::Clean
    }
}

/// The phase that an event leads to. An event that does not answer the
/// outstanding request leads to `Failed`, as does every event in `Failed`.
pub open spec fn next_phase(phase: Phase, event: EventView) -> Phase {
    match (phase, event) {
        (Phase::Uninitialized, EventView::StoreProbed { found }) => match storage_action(found) {
            Some(StorageAction::Open) => Phase::Opening,
            Some(StorageAction::Clone) => Phase::Cloning,
            None => Phase::Failed,
        },
        (Phase::Opening, EventView::Done) => Phase::Opened,
        (Phase::Cloning, EventView::Done) => Phase::Opened,
        (Phase::Opened, EventView::Done) => Phase::Reset,
        (Phase::Reset, EventView::Done) => Phase::Reconciled,
        (Phase::Reconciled, EventView::Status { changed }) => commit_or_push(changed),
        (Phase::Dirty, EventView::Done) => Phase::Committed,
        (Phase::Clean, EventView::Done) => Phase::Pushed,
        (Phase::Committed, EventView::Tick) => Phase::Reset,
        (Phase::Pushed, EventView::Tick) => Phase::Reset,
        _ => Phase::Failed,
    }
}

/// The error that an event ends the run with, if it does: a regular file in
/// the store's place, or a failure of the version-control engine at the
/// operation that was under way.
pub open spec fn failure(phase: Phase, event: EventView, store_root: Seq<char>) -> Option<
    SyncErrorView,
> {
    match event {
        EventView::StoreProbed { found } => if phase == Phase::Uninitialized && storage_action(found)
            is None {
            Some(SyncErrorView::StorageConflict { path: store_root })
        } else {
            None
        },
        EventView::Failed { message } => match operation(phase) {
            Some(operation) => Some(SyncErrorView::GitOperationFailed { operation, message }),
            None => None,
        },
        _ => None,
    }
}

/// The state of a run.
pub struct Orchestrator {
    session: SyncSession,
    phase: Phase,
}

/// The mathematical value of an `Orchestrator`.
pub struct OrchestratorView {
    pub session: SyncSessionView,
    pub phase: Phase,
}

impl View for Orchestrator {
    type V = OrchestratorView;

    closed spec fn view(&self) -> OrchestratorView {
        OrchestratorView { session: self.session@, phase: self.phase }
    }
}

/// Decides what follows a status: `Dirty`, and a commit, where paths have
/// changed; `Clean`, and a push, where none has.
pub fn sync_repo(changed: usize) -> (phase: Phase)
    ensures
        phase == commit_or_push(changed),
{
    if changed > 0 {
        Phase::Dirty
    } else {
        Phase::Clean
    }
}

/// The request that is outstanding in a phase.
pub fn request(phase: Phase) -> (action: Action)
    ensures
        action == awaited(phase),
{
    match phase {
        Phase::Uninitialized => Action::ProbeStore,
        Phase::Opening => Action::OpenStore,
        Phase::Cloning => Action::CloneStore,
        Phase::Opened => Action::ResetToRemoteMaster,
        Phase::Reset => Action::Reconcile,
        Phase::Reconciled => Action::QueryStatus,
        Phase::Dirty => Action::CommitAll,
        Phase::Clean => Action::PushMasterToOrigin,
        Phase::Committed => Action::WaitTick,
        Phase::Pushed => Action::WaitTick,
        Phase::Failed => Action::Halt,
    }
}

/// The operation of the version-control engine that is under way in a phase.
fn operation_under_way(phase: Phase) -> (r: Option<GitOperation>)
    ensures
        r == operation(phase),
{
    match phase {
        Phase::Opening => Some(GitOperation::Open),
        Phase::Cloning => Some(GitOperation::Open),
        Phase::Opened => Some(GitOperation::Reset),
        Phase::Reconciled => Some(GitOperation::Status),
        Phase::Dirty => Some(GitOperation::Commit),
        Phase::Clean => Some(GitOperation::Push),
        _ => None,
    }
}

impl Orchestrator {
    /// A run that has not begun: the first request is to look at the store's
    /// path.
    pub fn new(session: SyncSession) -> (run: Orchestrator)
        ensures
            run@.session == session@,
            run@.phase == Phase::Uninitialized,
    {
        Orchestrator { session, phase: Phase::Uninitialized }
    }

    /// The session that the run works on.
    pub fn session(&self) -> (session: &SyncSession)
        ensures
            session@ == self@.session,
    {
        &self.session
    }

    /// The phase that the run is in.
    pub fn phase(&self) -> (phase: Phase)
        ensures
            phase == self@.phase,
    {
        self.phase
    }

    /// The request that is outstanding.
    pub fn pending(&self) -> (action: Action)
        ensures
            action == awaited(self@.phase),
    {
        request(self.phase)
    }

    /// Takes the driver's report of the outstanding request and moves on.
    /// Hands back the next request, or the error that has ended the run.
    pub fn step(&mut self, event: Event) -> (r: Result<Action, SyncError>)
        ensures
            final(self)@.session == old(self)@.session,
            final(self)@.phase == next_phase(old(self)@.phase, event@),
            match r {
                Ok(action) => failure(old(self)@.phase, event@, old(self)@.session.store_root) is None
                    && action == awaited(final(self)@.phase),
                Err(error) => failure(old(self)@.phase, event@, old(self)@.session.store_root) == Some(
                    error@,
                ) && final(self)@.phase == Phase::Failed,
            },
    {
        let phase = self.phase;
        let mut next = Phase::Failed;
        let mut error: Option<SyncError> = None;
        match event {
            Event::StoreProbed { found } => {
                if let Phase::Uninitialized = phase {
                    match init_storage(&self.session, found) {
                        Ok(StorageAction::Open) => {
                            next = Phase::Opening;
                        },
                        Ok(StorageAction::Clone) => {
                            next = Phase::Cloning;
                        },
                        Err(conflict) => {
                            error = Some(conflict);
                        },
                    }
                }
            },
            Event::Done => {
                next =
                match phase {
                    Phase::Opening => Phase::Opened,
                    Phase::Cloning => Phase::Opened,
                    Phase::Opened => Phase::Reset,
                    Phase::Reset => Phase::Reconciled,
                    Phase::Dirty => Phase::Committed,
                    Phase::Clean => Phase::Pushed,
                    _ => Phase::Failed,
                };
            },
            Event::Status { changed } => {
                if let Phase::Reconciled = phase {
                    next = sync_repo(changed);
                }
            },
            Event::Tick => {
                next =
                match phase {
                    Phase::Committed => Phase::Reset,
                    Phase::Pushed => Phase::Reset,
                    _ => Phase::Failed,
                };
            },
            Event::Failed { message } => {
                if let Some(operation) = operation_under_way(phase) {
                    error = Some(SyncError::GitOperationFailed { operation, message });
                }
            },
        }
        self.phase = next;
        match error {
            Some(error) => Err(error),
            None => Ok(request(next)),
        }
    }
}

} // verus!
