//! A migration run against the in-memory store: what a run is, and the
//! loop that drives the runner through it.

use vstd::prelude::*;
use crate::db::catalog::{Catalog, Operation, OperationView, StepView, operation_views, standard_catalog};
use crate::db::ledger::highest_version;
use crate::db::report::{DatabaseOpenError, FailureView, OutcomeView, UpgradeOutcome, descriptions, result_view};
use crate::db::runner::{Action, ActionView, Event, EventView, MigrationRunner, Phase, RunnerView};
use crate::db::store::{MemoryStore, StoreError, StoreState};

verus! {

/// Applying the operations from position `from` on, in order, up to the
/// first that fails: the store after it, and whether all succeeded.
pub open spec fn apply_from(store: StoreState, operations: Seq<OperationView>, from: int) -> (
    StoreState,
    bool,
)
    decreases operations.len() - from,
{
    if from < 0 || from >= operations.len() {
        (store, true)
    } else {
        let (next, applied) = store.apply(operations[from]);
        if applied {
            apply_from(next, operations, from + 1)
        } else {
            (next, false)
        }
    }
}

/// Applying all the operations, in order, up to the first that fails.
pub open spec fn apply_all(store: StoreState, operations: Seq<OperationView>) -> (StoreState, bool) {
    apply_from(store, operations, 0)
}

/// Committing the open transaction, or aborting it where the commit fails.
pub open spec fn commit_or_abort(store: StoreState) -> (StoreState, bool) {
    let (next, committed) = store.commit();
    if committed {
        (next, true)
    } else {
        (next.abort(), false)
    }
}

/// Recording the version and committing, or aborting where either fails.
pub open spec fn conclude(store: StoreState, version: u64, now: u64) -> (StoreState, bool) {
    let (next, recorded) = store.record(version, now);
    if recorded {
        commit_or_abort(next)
    } else {
        (next.abort(), false)
    }
}

/// One step as one transaction: begin, apply the operations, record the
/// version, commit; abort at the first failure inside the transaction.
pub open spec fn attempt_step(store: StoreState, step: StepView, now: u64) -> (StoreState, bool) {
    let (begun_store, begun) = store.begin();
    if begun {
        let (applied_store, applied) = apply_all(begun_store, step.operations);
        if applied {
            conclude(applied_store, step.target_version as u64, now)
        } else {
            (applied_store.abort(), false)
        }
    } else {
        (begun_store, false)
    }
}

/// The pending steps from version `current` to `target`, in order, up to
/// the first that fails: the store after them, the version reached, and
/// whether none failed.
pub open spec fn run_steps(
    store: StoreState,
    catalog: Seq<StepView>,
    current: nat,
    target: nat,
    now: u64,
) -> (StoreState, nat, bool)
    decreases target - current,
{
    if current >= target {
        (store, current, true)
    } else {
        let (next, done) = attempt_step(store, catalog[current as int], now);
        if done {
            run_steps(next, catalog, current + 1, target, now)
        } else {
            (next, current, false)
        }
    }
}

/// A whole run: the ledger is scanned for the current version, and the
/// pending steps are applied. The store after it, and what is returned.
pub open spec fn migrate(store: StoreState, catalog: Seq<StepView>, target: nat, now: u64) -> (
    StoreState,
    Result<OutcomeView, FailureView>,
) {
    let (scanned, rows) = store.scan();
    match rows {
        Some(rows) => {
            let found = highest_version(rows);
            let (next, reached, done) = run_steps(scanned, catalog, found, target, now);
            if done {
                (
                    next,
                    Ok(
                        OutcomeView {
                            applied_steps: descriptions(found, reached),
                            final_version: reached,
                        },
                    ),
                )
            } else {
                (
                    next,
                    Err(
                        FailureView::Upgrade {
                            current_version: reached as u64,
                            target_version: target as u64,
                        },
                    ),
                )
            }
        },
        None => (scanned, Err(FailureView::FindVersion)),
    }
}

/// What the store does on an action, and what it answers.
pub open spec fn perform(store: StoreState, action: ActionView, now: u64) -> (StoreState, EventView) {
    match action {
        ActionView::ScanLedger => {
            let (next, rows) = store.scan();
            match rows {
                Some(rows) => (next, EventView::LedgerScanned(rows)),
                None => (next, EventView::Failed),
            }
        },
        ActionView::Begin => answer(store.begin()),
        ActionView::Apply(operation) => answer(store.apply(operation)),
        ActionView::Record { version } => answer(store.record(version, now)),
        ActionView::Commit => answer(store.commit()),
        ActionView::Abort => (store.abort(), EventView::Succeeded),
        ActionView::Stop => (store, EventView::Succeeded),
    }
}

/// The event that reports whether a call succeeded.
pub open spec fn answer(outcome: (StoreState, bool)) -> (StoreState, EventView) {
    if outcome.1 {
        (outcome.0, EventView::Succeeded)
    } else {
        (outcome.0, EventView::Failed)
    }
}

/// What is left of a run whose ledger scan succeeded, from the runner's
/// phase on: the store at its end, the version reached, and whether no
/// step failed.
spec fn remainder(runner: RunnerView, store: StoreState, now: u64) -> (
    StoreState,
    nat,
    bool,
) {
    let version = (runner.current + 1) as u64;
    match runner.phase {
        Phase::Begin => run_steps(store, runner.catalog, runner.current, runner.target, now),
        Phase::Apply { index } => {
            let (applied_store, applied) = apply_from(store, runner.step().operations, index as int);
            if applied {
                after_step(runner, conclude(applied_store, version, now), now)
            } else {
                (applied_store.abort(), runner.current, false)
            }
        },
        Phase::Record => after_step(runner, conclude(store, version, now), now),
        Phase::Commit => after_step(runner, commit_or_abort(store), now),
        Phase::Abort => (store.abort(), runner.current, false),
        Phase::Ready => (store, runner.current, true),
        _ => (store, runner.current, false),
    }
}

/// What is left of a run once the step in progress has ended.
spec fn after_step(runner: RunnerView, ended: (StoreState, bool), now: u64) -> (
    StoreState,
    nat,
    bool,
) {
    if ended.1 {
        run_steps(ended.0, runner.catalog, runner.current + 1, runner.target, now)
    } else {
        (ended.0, runner.current, false)
    }
}

/// How far a runner is from the end of its run, as a tuple that falls
/// with every transition.
spec fn distance(runner: RunnerView) -> (int, int, int) {
    let steps = runner.target - runner.current;
    match runner.phase {
        Phase::Opened => (steps, 0, 0),
        Phase::Begin => (steps, 6, 0),
        Phase::Apply { index } => (steps, 5, runner.step().operations.len() - index),
        Phase::Record => (steps, 4, 0),
        Phase::Commit => (steps, 3, 0),
        Phase::Abort => (steps, 2, 0),
        _ => (steps, 1, 0),
    }
}

/// One transition of a step in progress leaves the remainder of the run
/// as it was, keeps the trace in line with the version, and brings the
/// runner nearer to the end.
proof fn lemma_transition(runner: RunnerView, store: StoreState, now: u64, found: nat)
    requires
        runner.wf(),
        runner.stepping(),
        found <= runner.current,
        runner.applied == descriptions(found, runner.current),
    ensures
        ({
            let (next_store, event) = perform(store, runner.action(), now);
            let next = runner.next(event);
            &&& next.wf()
            &&& next.phase != Phase::Opened
            &&& next.phase != Phase::FindVersionFailed
            &&& found <= next.current
            &&& next.applied == descriptions(found, next.current)
            &&& remainder(next, next_store, now) == remainder(runner, store, now)
            &&& next.catalog == runner.catalog
            &&& next.target == runner.target
            &&& distance(next).0 < distance(runner).0 || (distance(next).0 == distance(runner).0
                && (distance(next).1 < distance(runner).1 || (distance(next).1 == distance(
                runner,
            ).1 && distance(next).2 < distance(runner).2)))
        }),
{
    let (next_store, event) = perform(store, runner.action(), now);
    let next = runner.next(event);
    let step = runner.step();
    let operations = step.operations;
    let version = (runner.current + 1) as u64;
    assert(step.target_version == runner.current + 1);
    match runner.phase {
        Phase::Begin => {
            assert(remainder(runner, store, now) == after_step(
                runner,
                attempt_step(store, step, now),
                now,
            ));
            if event is Succeeded {
                assert(store.begin() == (next_store, true));
                if operations.len() == 0 {
                    assert(apply_all(next_store, operations) == (next_store, true));
                }
            } else {
                assert(store.begin() == (next_store, false));
            }
        },
        Phase::Apply { index } => {
            assert(index < operations.len());
            assert(store.apply(operations[index as int]).0 == next_store);
            if event is Succeeded {
                assert(apply_from(store, operations, index as int) == apply_from(
                    next_store,
                    operations,
                    index + 1,
                ));
                if index + 1 >= operations.len() {
                    assert(apply_from(next_store, operations, index + 1) == (next_store, true));
                }
            } else {
                assert(apply_from(store, operations, index as int) == (next_store, false));
            }
        },
        Phase::Record => {
            assert(store.record(version, now).0 == next_store);
        },
        Phase::Commit => {
            assert(store.commit().0 == next_store);
            if event is Succeeded {
                assert(next.applied =~= descriptions(found, next.current));
                assert(commit_or_abort(store) == (next_store, true));
            }
        },
        Phase::Abort => {
        },
        _ => {},
    }
}

impl MemoryStore {
    /// Carries out the action and answers with the event that reports it.
    /// A version is recorded with the instant `now`.
    pub fn perform(&mut self, action: &Action, now: u64) -> (event: Event)
        requires
            old(self).wf(),
        ensures
            final(self).wf(),
            (final(self)@, event@) == perform(old(self)@, action@, now),
    {
        match action {
            Action::ScanLedger => match self.scan_ledger() {
                Ok(rows) => Event::LedgerScanned(rows),
                Err(_) => Event::Failed,
            },
            Action::Begin => report(self.begin()),
            Action::Apply(operation) => report(self.apply(operation)),
            Action::Record { version } => report(self.record(*version, now)),
            Action::Commit => report(self.commit()),
            Action::Abort => {
                self.abort();
                Event::Succeeded
            },
            Action::Stop => Event::Succeeded,
        }
    }

    /// Applies the operations in order and stops at the first that fails.
    pub fn apply_all(&mut self, operations: &Vec<Operation>) -> (applied: Result<(), StoreError>)
        requires
            old(self).wf(),
        ensures
            final(self).wf(),
            final(self)@ == apply_all(old(self)@, operation_views(operations@)).0,
            applied is Ok <==> apply_all(old(self)@, operation_views(operations@)).1,
            applied is Err ==> applied == Err::<(), StoreError>(StoreError::Operation),
    {
        let ghost views = operation_views(operations@);
        let mut i: usize = 0;
        while i < operations.len()
            invariant
                i <= operations.len(),
                views == operation_views(operations@),
                self.wf(),
                apply_from(self@, views, i as int) == apply_all(old(self)@, views),
            decreases operations.len() - i,
        {
            let applied = self.apply(&operations[i]);
            if applied.is_err() {
                return applied;
            }
            i += 1;
        }
        Ok(())
    }
}

/// The event that reports whether a call of the store succeeded.
fn report(outcome: Result<(), StoreError>) -> (event: Event)
    ensures
        event@ == if outcome is Ok {
            EventView::Succeeded
        } else {
            EventView::Failed
        },
{
    match outcome {
        Ok(_) => Event::Succeeded,
        Err(_) => Event::Failed,
    }
}

impl MigrationRunner {
    /// Runs the migration against `store` to its end: scans the ledger,
    /// then applies each pending step as one transaction, and stops at the
    /// first failure. Versions are recorded with the instant `now`.
    pub fn run(self, store: &mut MemoryStore, now: u64) -> (result: Result<
        UpgradeOutcome,
        DatabaseOpenError,
    >)
        requires
            self.wf(),
            self@.phase == Phase::Opened,
            old(store).wf(),
        ensures
            final(store).wf(),
            (final(store)@, result_view(result)) == migrate(
                old(store)@,
                self@.catalog,
                self@.target,
                now,
            ),
    {
        let mut runner = self;
        let ghost catalog = self@.catalog;
        let ghost target = self@.target;
        let ghost scanned = old(store)@.scan().0;
        let ghost rows = old(store)@.scan().1;
        let ghost found = match rows {
            Some(rows) => highest_version(rows),
            None => 0,
        };
        let first = runner.next_action();
        let event = store.perform(&first, now);
        runner.advance(event);
        proof {
            if rows is Some {
                assert(runner@.applied =~= descriptions(found, found));
            }
        }
        loop
            invariant
                runner.wf(),
                store.wf(),
                runner@.catalog == catalog,
                runner@.target == target,
                runner@.phase != Phase::Opened,
                rows is None ==> runner@.phase == Phase::FindVersionFailed && store@ == scanned,
                rows is Some ==> {
                    &&& runner@.phase != Phase::FindVersionFailed
                    &&& found <= runner@.current
                    &&& runner@.applied == descriptions(found, runner@.current)
                    &&& remainder(runner@, store@, now) == run_steps(
                        scanned,
                        catalog,
                        found,
                        target,
                        now,
                    )
                },
            ensures
                runner@.result() is Some,
                store.wf(),
                runner@.catalog == catalog,
                runner@.target == target,
                rows is None ==> runner@.phase == Phase::FindVersionFailed && store@ == scanned,
                rows is Some ==> {
                    &&& runner@.phase != Phase::FindVersionFailed
                    &&& runner@.applied == descriptions(found, runner@.current)
                    &&& remainder(runner@, store@, now) == run_steps(
                        scanned,
                        catalog,
                        found,
                        target,
                        now,
                    )
                },
            decreases distance(runner@).0, distance(runner@).1, distance(runner@).2,
        {
            let action = runner.next_action();
            if let Action::Stop = action {
                break;
            }
            proof {
                lemma_transition(runner@, store@, now, found);
            }
            let event = store.perform(&action, now);
            runner.advance(event);
        }
        match runner.finish() {
            Some(result) => result,
            None => Err(DatabaseOpenError::FindVersion),
        }
    }
}

/// Takes `db` to version 1 by the standard catalog. Where it is at that
/// version or beyond it, nothing is done.
pub fn upgrade_to_version_1(db: &mut MemoryStore, now: u64) -> (result: Result<
    UpgradeOutcome,
    DatabaseOpenError,
>)
    requires
        old(db).wf(),
    ensures
        final(db).wf(),
        (final(db)@, result_view(result)) == migrate(old(db)@, standard_catalog(), 1, now),
{
    match MigrationRunner::new(Catalog::standard(), 1) {
        Some(runner) => runner.run(db, now),
        None => Err(DatabaseOpenError::FindVersion),
    }
}

} // verus!
