//! Whole runs of the orchestrator, and what holds of every one of them.

use vstd::prelude::*;
use crate::error::SyncErrorView;
use crate::orchestrator::awaited;
use crate::orchestrator::failure;
use crate::orchestrator::next_phase;
use crate::orchestrator::Action;
use crate::orchestrator::EventView;
use crate::orchestrator::Phase;
use crate::repository::StorePath;

verus! {

/// The phase that a run is in after `events`, one after the other.
pub open spec fn run(phase: Phase, events: Seq<EventView>) -> Phase
    decreases events.len(),
{
    if events.len() == 0 {
        phase
    } else {
        next_phase(run(phase, events.drop_last()), events.last())
    }
}

/// What the driver is asked in the course of a run: the request that is
/// outstanding after each event.
pub open spec fn requests(phase: Phase, events: Seq<EventView>) -> Seq<Action> {
    Seq::new(events.len(), |i: int| awaited(run(phase, events.subrange(0, i + 1))))
}

/// Whether a phase belongs to the passes: the store is open and pulled.
pub open spec fn in_passes(phase: Phase) -> bool {
    match phase {
        Phase::Reset => true,
        Phase::Reconciled => true,
        Phase::Dirty => true,
        Phase::Clean => true,
        Phase::Committed => true,
        Phase::Pushed => true,
        _ => false,
    }
}

/// The phase after the first `n` events is one step from the phase before.
proof fn run_unfolds(phase: Phase, events: Seq<EventView>, n: int)
    requires
        0 < n <= events.len(),
    ensures
        run(phase, events.subrange(0, n)) == next_phase(
            run(phase, events.subrange(0, n - 1)),
            events[n - 1],
        ),
{
    let front = events.subrange(0, n);
    assert(front.drop_last() =~= events.subrange(0, n - 1));
    assert(front.last() == events[n - 1]);
}

/// Once a run has failed or has reached the passes, it stays there.
proof fn passes_are_not_left(phase: Phase, events: Seq<EventView>)
    requires
        in_passes(phase) || phase == Phase::Failed,
    ensures
        in_passes(run(phase, events)) || run(phase, events) == Phase::Failed,
    decreases events.len(),
{
    if events.len() > 0 {
        passes_are_not_left(phase, events.drop_last());
    }
}

/// A run is put together from its front part and the rest.
proof fn run_splits(phase: Phase, events: Seq<EventView>, n: int)
    requires
        0 <= n <= events.len(),
    ensures
        run(phase, events) == run(
            run(phase, events.subrange(0, n)),
            events.subrange(n, events.len() as int),
        ),
    decreases events.len(),
{
    let rest = events.subrange(n, events.len() as int);
    if n == events.len() {
        assert(events.subrange(0, n) =~= events);
    } else {
        run_splits(phase, events.drop_last(), n);
        assert(events.drop_last().subrange(0, n) =~= events.subrange(0, n));
        assert(events.drop_last().subrange(n, events.len() - 1) =~= rest.drop_last());
        assert(rest.last() == events.last());
    }
}

/// There is no way back from `Failed`: whatever is reported, the run stays
/// failed and nothing more is asked.
pub proof fn failed_is_final(events: Seq<EventView>)
    ensures
        run(Phase::Failed, events) == Phase::Failed,
        forall|i: int| 0 <= i < events.len() ==> requests(Phase::Failed, events)[i] == Action::Halt,
{
    stays_failed(events);
    assert forall|i: int| 0 <= i < events.len() implies requests(Phase::Failed, events)[i]
        == Action::Halt by {
        stays_failed(events.subrange(0, i + 1));
    }
}

proof fn stays_failed(events: Seq<EventView>)
    ensures
        run(Phase::Failed, events) == Phase::Failed,
    decreases events.len(),
{
    if events.len() > 0 {
        stays_failed(events.drop_last());
    }
}

/// A regular file in the store's place ends the run with `StorageConflict`
/// before the version-control engine is asked for anything: nothing is
/// opened, cloned, pulled, committed or pushed, then or later.
pub proof fn storage_conflict_comes_first(events: Seq<EventView>, store_root: Seq<char>)
    requires
        events.len() > 0,
        events[0] == (EventView::StoreProbed { found: StorePath::RegularFile }),
    ensures
        failure(Phase::Uninitialized, events[0], store_root) == Some(
            SyncErrorView::StorageConflict { path: store_root },
        ),
        awaited(Phase::Uninitialized) == Action::ProbeStore,
        forall|i: int|
            0 <= i < events.len() ==> requests(Phase::Uninitialized, events)[i] == Action::Halt,
{
    assert forall|i: int| 0 <= i < events.len() implies requests(Phase::Uninitialized, events)[i]
        == Action::Halt by {
        let front = events.subrange(0, i + 1);
        run_splits(Phase::Uninitialized, front, 1);
        let first = front.subrange(0, 1);
        assert(first.drop_last() =~= Seq::<EventView>::empty());
        assert(first.last() == events[0]);
        assert(run(Phase::Uninitialized, first) == Phase::Failed);
        stays_failed(front.subrange(1, front.len() as int));
    }
}

/// The store is pulled once in a run: the request to pull is never made a
/// second time, whatever is reported and however long the run goes on.
pub proof fn pulls_once(phase: Phase, events: Seq<EventView>, i: int, j: int)
    requires
        0 <= i < j < events.len(),
        requests(phase, events)[i] == Action::ResetToRemoteMaster,
    ensures
        requests(phase, events)[j] != Action::ResetToRemoteMaster,
{
    let until_i = events.subrange(0, i + 1);
    let until_j = events.subrange(0, j + 1);
    assert(run(phase, until_i) == Phase::Opened);
    run_splits(phase, until_j, i + 2);
    assert(until_j.subrange(0, i + 2) =~= events.subrange(0, i + 2));
    run_unfolds(phase, events, i + 2);
    assert(events.subrange(0, i + 2 - 1) =~= until_i);
    let then = run(phase, events.subrange(0, i + 2));
    assert(in_passes(then) || then == Phase::Failed);
    passes_are_not_left(then, until_j.subrange(i + 2, until_j.len() as int));
}

/// A commit is asked for only in answer to a status with changes, a push only
/// in answer to a status without: no status is answered with both.
pub proof fn commit_or_push_answers_status(phase: Phase, events: Seq<EventView>, i: int)
    requires
        0 <= i < events.len(),
    ensures
        requests(phase, events)[i] == Action::CommitAll ==> events[i] is Status
            && events[i]->changed > 0,
        requests(phase, events)[i] == Action::PushMasterToOrigin ==> events[i] is Status
            && events[i]->changed == 0,
{
    run_unfolds(phase, events, i + 1);
}

/// A pass that finds changes commits once and does not push; a pass that
/// finds none pushes once and does not commit. Either way the next tick
/// begins the next pass with the files, not with a pull.
pub proof fn commit_push_ordering(changed: usize)
    ensures
        changed > 0 ==> requests(
            Phase::Reset,
            seq![EventView::Done, EventView::Status { changed }, EventView::Done],
        ) == seq![Action::QueryStatus, Action::CommitAll, Action::WaitTick],
        changed == 0 ==> requests(
            Phase::Reset,
            seq![EventView::Done, EventView::Status { changed }, EventView::Done],
        ) == seq![Action::QueryStatus, Action::PushMasterToOrigin, Action::WaitTick],
        awaited(Phase::Reset) == Action::Reconcile,
        awaited(
            run(
                Phase::Reset,
                seq![EventView::Done, EventView::Status { changed }, EventView::Done, EventView::Tick],
            ),
        ) == Action::Reconcile,
{
    let pass = seq![EventView::Done, EventView::Status { changed }, EventView::Done];
    let with_tick = seq![
        EventView::Done,
        EventView::Status { changed },
        EventView::Done,
        EventView::Tick,
    ];
    run_unfolds(Phase::Reset, pass, 1);
    run_unfolds(Phase::Reset, pass, 2);
    run_unfolds(Phase::Reset, pass, 3);
    assert(pass.subrange(0, 0) =~= Seq::<EventView>::empty());
    assert(run(Phase::Reset, pass.subrange(0, 1)) == Phase::Reconciled);
    assert(run(Phase::Reset, pass.subrange(0, 3)) == if changed > 0 {
        Phase::Committed
    } else {
        Phase::Pushed
    });
    let asked = requests(Phase::Reset, pass);
    if changed > 0 {
        assert(asked =~= seq![Action::QueryStatus, Action::CommitAll, Action::WaitTick]);
    } else {
        assert(asked =~= seq![Action::QueryStatus, Action::PushMasterToOrigin, Action::WaitTick]);
    }
    assert(with_tick.drop_last() =~= pass);
    assert(pass.subrange(0, 3) =~= pass);
}

} // verus!
