//! What a migration run guarantees: each step takes effect whole or not at
//! all, a failed run leaves the store at the last committed version, and a
//! run that is repeated changes nothing.

use vstd::prelude::*;
use crate::db::catalog::{
    ArtifactKey, OperationView, StepView, gap_free, standard_catalog, step_description,
    version_1_operations,
};
use crate::db::text::decimal;
use crate::db::ledger::{
    LedgerRow, SchemaVersion, highest_version, lemma_highest_version_push,
};
use crate::db::upgrade::{apply_all, apply_from, attempt_step, migrate, run_steps};
use crate::db::report::{FailureView, OutcomeView, descriptions};
use crate::db::store::{Fault, FaultSite, StoreState, distinct, holds};

verus! {

/// The artifacts once `operation` took effect: it is added unless its
/// artifact is held.
pub open spec fn with_artifact(schema: Seq<OperationView>, operation: OperationView) -> Seq<
    OperationView,
> {
    if holds(schema, operation.key()) {
        schema
    } else {
        schema.push(operation)
    }
}

/// The artifacts once the operations from position `from` on took effect,
/// in order.
pub open spec fn with_artifacts_from(
    schema: Seq<OperationView>,
    operations: Seq<OperationView>,
    from: int,
) -> Seq<OperationView>
    decreases operations.len() - from,
{
    if from < 0 || from >= operations.len() {
        schema
    } else {
        with_artifacts_from(with_artifact(schema, operations[from]), operations, from + 1)
    }
}

/// The artifacts once all the operations took effect, in order.
pub open spec fn with_artifacts(schema: Seq<OperationView>, operations: Seq<OperationView>) -> Seq<
    OperationView,
> {
    with_artifacts_from(schema, operations, 0)
}

/// The artifacts once the steps from version `from` to version `to` took
/// effect, in order.
pub open spec fn schema_after(
    schema: Seq<OperationView>,
    catalog: Seq<StepView>,
    from: nat,
    to: nat,
) -> Seq<OperationView>
    decreases to - from,
{
    if from >= to {
        schema
    } else {
        schema_after(
            with_artifacts(schema, catalog[from as int].operations),
            catalog,
            from + 1,
            to,
        )
    }
}

/// The row that records `version` at the instant `now`.
pub open spec fn version_row(version: nat, now: u64) -> LedgerRow {
    LedgerRow::of(SchemaVersion { version: version as u64, timestamp: now })
}

/// The ledger once the steps from version `from` to version `to` were
/// recorded: one row more for each, in order.
pub open spec fn ledger_after(ledger: Seq<LedgerRow>, from: nat, to: nat, now: u64) -> Seq<
    LedgerRow,
> {
    if to <= from {
        ledger
    } else {
        ledger + Seq::new((to - from) as nat, |i: int| version_row((from + 1 + i) as nat, now))
    }
}

/// An operation that is applied adds at most its own artifact, keeps the
/// store well formed, and fails only by a planted fault, which is then
/// spent.
pub proof fn lemma_apply_from(store: StoreState, operations: Seq<OperationView>, from: int)
    requires
        store.wf(),
    ensures
        ({
            let (next, applied) = apply_from(store, operations, from);
            &&& next.wf()
            &&& next.ledger == store.ledger
            &&& next.savepoint == store.savepoint
            &&& store.schema.len() <= next.schema.len()
            &&& next.schema.take(store.schema.len() as int) == store.schema
            &&& applied ==> next.schema == with_artifacts_from(store.schema, operations, from)
            &&& !applied ==> store.fault is Some && next.fault is None
            &&& store.fault is None ==> applied && next.fault is None
        }),
    decreases operations.len() - from,
{
    let (next, applied) = apply_from(store, operations, from);
    if from < 0 || from >= operations.len() {
        assert(next.schema.take(store.schema.len() as int) =~= store.schema);
    } else {
        let (middle, done) = store.apply(operations[from]);
        assert(middle.schema.take(store.schema.len() as int) =~= store.schema);
        if done {
            assert(middle.schema == with_artifact(store.schema, operations[from]));
            lemma_apply_from(middle, operations, from + 1);
            assert(next.schema.take(store.schema.len() as int) =~= next.schema.take(
                middle.schema.len() as int,
            ).take(store.schema.len() as int));
        }
    }
}

/// A step takes effect whole or not at all. Where it succeeds, its
/// artifacts are added and one ledger row records its version. Where it
/// fails, artifacts and ledger are as before, and the failure was a
/// planted fault, which is spent.
pub proof fn law_step_atomic(store: StoreState, step: StepView, now: u64)
    requires
        store.wf(),
        !store.in_transaction(),
        step.target_version <= u64::MAX,
    ensures
        ({
            let (next, done) = attempt_step(store, step, now);
            &&& next.wf()
            &&& !next.in_transaction()
            &&& done ==> next.schema == with_artifacts(store.schema, step.operations)
                && next.ledger == store.ledger.push(
                LedgerRow::of(
                    SchemaVersion { version: step.target_version as u64, timestamp: now },
                ),
            )
            &&& !done ==> next.schema == store.schema && next.ledger == store.ledger
                && store.fault is Some && next.fault is None
            &&& store.fault is None ==> done && next.fault is None
        }),
{
    let (begun_store, begun) = store.begin();
    if begun {
        lemma_apply_from(begun_store, step.operations, 0);
        let (applied_store, applied) = apply_all(begun_store, step.operations);
        assert(applied_store.abort().schema == store.schema);
        assert(applied_store.abort().ledger =~= store.ledger);
        if applied {
            let version = step.target_version as u64;
            let (recorded_store, recorded) = applied_store.record(version, now);
            assert(recorded_store.abort().schema == store.schema);
            assert(recorded_store.abort().ledger =~= store.ledger);
            if recorded {
                let (committed_store, committed) = recorded_store.commit();
                if !committed {
                    assert(committed_store.abort().schema == store.schema);
                    assert(committed_store.abort().ledger =~= store.ledger);
                }
            }
        }
    }
}

/// A run of the pending steps stops at a step boundary: the store holds
/// what the steps up to the version reached brought about, and nothing of
/// a later step. It falls short of the target only by a planted fault,
/// which is then spent.
pub proof fn lemma_run_steps(
    store: StoreState,
    catalog: Seq<StepView>,
    current: nat,
    target: nat,
    now: u64,
)
    requires
        store.wf(),
        !store.in_transaction(),
        gap_free(catalog),
        current <= target <= catalog.len(),
        target <= u64::MAX,
    ensures
        ({
            let (next, reached, done) = run_steps(store, catalog, current, target, now);
            &&& next.wf()
            &&& !next.in_transaction()
            &&& current <= reached <= target
            &&& done <==> reached == target
            &&& next.schema == schema_after(store.schema, catalog, current, reached)
            &&& next.ledger == ledger_after(store.ledger, current, reached, now)
            &&& !done ==> store.fault is Some && next.fault is None
            &&& store.fault is None ==> next.fault is None
        }),
    decreases target - current,
{
    if current < target {
        let step = catalog[current as int];
        law_step_atomic(store, step, now);
        let (middle, done) = attempt_step(store, step, now);
        if done {
            lemma_run_steps(middle, catalog, current + 1, target, now);
            let (next, reached, _) = run_steps(middle, catalog, current + 1, target, now);
            assert(middle.ledger == store.ledger.push(version_row(current + 1, now)));
            assert(ledger_after(middle.ledger, current + 1, reached, now) =~= ledger_after(
                store.ledger,
                current,
                reached,
                now,
            ));
        }
    }
}

/// Recording the steps up to version `to` in a ledger whose highest
/// version is below `to` makes `to` its highest version.
pub proof fn lemma_highest_version_after(ledger: Seq<LedgerRow>, from: nat, to: nat, now: u64)
    requires
        from < to <= u64::MAX,
        highest_version(ledger) <= to,
    ensures
        highest_version(ledger_after(ledger, from, to, now)) == to,
    decreases to - from,
{
    let before = ledger_after(ledger, from, (to - 1) as nat, now);
    assert(ledger_after(ledger, from, to, now) =~= before.push(version_row(to, now)));
    lemma_highest_version_push(before, SchemaVersion { version: to as u64, timestamp: now });
    if from < to - 1 {
        if highest_version(ledger) <= to - 1 {
            lemma_highest_version_after(ledger, from, (to - 1) as nat, now);
        } else {
            lemma_highest_version_kept(ledger, from, (to - 1) as nat, now);
        }
    }
}

/// Recording steps whose versions do not pass the ledger's highest
/// version leaves that version as it is.
pub proof fn lemma_highest_version_kept(ledger: Seq<LedgerRow>, from: nat, to: nat, now: u64)
    requires
        from <= to <= highest_version(ledger),
        to <= u64::MAX,
    ensures
        highest_version(ledger_after(ledger, from, to, now)) == highest_version(ledger),
    decreases to - from,
{
    if from < to {
        let before = ledger_after(ledger, from, (to - 1) as nat, now);
        assert(ledger_after(ledger, from, to, now) =~= before.push(version_row(to, now)));
        lemma_highest_version_push(before, SchemaVersion { version: to as u64, timestamp: now });
        lemma_highest_version_kept(ledger, from, (to - 1) as nat, now);
    }
}

/// Applying operations drops no artifact.
pub proof fn lemma_with_artifacts_keeps(
    schema: Seq<OperationView>,
    operations: Seq<OperationView>,
    from: int,
    key: ArtifactKey,
)
    requires
        holds(schema, key),
    ensures
        holds(with_artifacts_from(schema, operations, from), key),
    decreases operations.len() - from,
{
    if 0 <= from < operations.len() {
        let next = with_artifact(schema, operations[from]);
        let i = choose|i: int| 0 <= i < schema.len() && (#[trigger] schema[i]).key() == key;
        assert(next[i].key() == key);
        lemma_with_artifacts_keeps(next, operations, from + 1, key);
    }
}

/// Once operations are applied, the artifact of each is held.
pub proof fn lemma_with_artifacts_holds(
    schema: Seq<OperationView>,
    operations: Seq<OperationView>,
    from: int,
    at: int,
)
    requires
        0 <= from <= at < operations.len(),
    ensures
        holds(with_artifacts_from(schema, operations, from), operations[at].key()),
    decreases operations.len() - from,
{
    let next = with_artifact(schema, operations[from]);
    if from == at {
        if !holds(schema, operations[from].key()) {
            assert(next[schema.len() as int].key() == operations[from].key());
        }
        lemma_with_artifacts_keeps(next, operations, from + 1, operations[at].key());
    } else {
        lemma_with_artifacts_holds(next, operations, from + 1, at);
    }
}

/// Operations whose artifacts are all held change nothing.
pub proof fn lemma_with_artifacts_settled(
    schema: Seq<OperationView>,
    operations: Seq<OperationView>,
    from: int,
)
    requires
        forall|at: int|
            from <= at < operations.len() ==> holds(schema, (#[trigger] operations[at]).key()),
    ensures
        with_artifacts_from(schema, operations, from) == schema,
    decreases operations.len() - from,
{
    if 0 <= from < operations.len() {
        lemma_with_artifacts_settled(schema, operations, from + 1);
    }
}

/// The operations of a step are safe to repeat: applying them a second
/// time changes nothing.
pub proof fn law_step_reapplied(schema: Seq<OperationView>, operations: Seq<OperationView>)
    ensures
        with_artifacts(with_artifacts(schema, operations), operations) == with_artifacts(
            schema,
            operations,
        ),
{
    let once = with_artifacts(schema, operations);
    assert forall|at: int| 0 <= at < operations.len() implies holds(
        once,
        (#[trigger] operations[at]).key(),
    ) by {
        lemma_with_artifacts_holds(schema, operations, 0, at);
    }
    lemma_with_artifacts_settled(once, operations, 0);
}

/// Operations that bring about distinct artifacts all take effect on a
/// store that holds the artifacts of those before them.
pub proof fn lemma_with_artifacts_distinct(operations: Seq<OperationView>, from: int)
    requires
        distinct(operations),
        0 <= from <= operations.len(),
    ensures
        with_artifacts_from(operations.take(from), operations, from) == operations,
    decreases operations.len() - from,
{
    if from < operations.len() {
        let schema = operations.take(from);
        assert(!holds(schema, operations[from].key())) by {
            if holds(schema, operations[from].key()) {
                let i = choose|i: int|
                    0 <= i < schema.len() && (#[trigger] schema[i]).key() == operations[from].key();
                assert(operations[i].key() == operations[from].key());
            }
        }
        assert(schema.push(operations[from]) =~= operations.take(from + 1));
        lemma_with_artifacts_distinct(operations, from + 1);
    } else {
        assert(operations.take(from) =~= operations);
    }
}

/// Monotonic version reporting: a run without a fault, from a store at a
/// version that does not pass `target`, ends with success, and the store
/// then reports exactly `target`.
pub proof fn law_version_reached(store: StoreState, catalog: Seq<StepView>, target: nat, now: u64)
    requires
        store.wf(),
        !store.in_transaction(),
        store.fault is None,
        gap_free(catalog),
        target <= catalog.len(),
        target <= u64::MAX,
        store.version() <= target,
    ensures
        ({
            let (next, result) = migrate(store, catalog, target, now);
            &&& result is Ok
            &&& result->Ok_0.final_version == target
            &&& result->Ok_0.applied_steps == descriptions(store.version(), target)
            &&& next.wf()
            &&& !next.in_transaction()
            &&& next.fault is None
            &&& next.version() == target
            &&& next.schema == schema_after(store.schema, catalog, store.version(), target)
            &&& next.ledger == ledger_after(store.ledger, store.version(), target, now)
        }),
{
    let found = store.version();
    lemma_run_steps(store, catalog, found, target, now);
    if found < target {
        lemma_highest_version_after(store.ledger, found, target, now);
    }
}

/// Idempotence: of two runs in succession without a fault, the second
/// applies no step, returns the final version of the first, and leaves
/// the store as the first left it. The first adds one ledger row for each
/// step it applied, and no artifact stands twice.
pub proof fn law_idempotence(store: StoreState, catalog: Seq<StepView>, target: nat, now: u64)
    requires
        store.wf(),
        !store.in_transaction(),
        store.fault is None,
        gap_free(catalog),
        target <= catalog.len(),
        target <= u64::MAX,
    ensures
        ({
            let (once, first) = migrate(store, catalog, target, now);
            let (twice, second) = migrate(once, catalog, target, now);
            &&& first is Ok
            &&& second is Ok
            &&& second->Ok_0.final_version == first->Ok_0.final_version
            &&& second->Ok_0.applied_steps == Seq::<Seq<char>>::empty()
            &&& twice == once
            &&& distinct(once.schema)
            &&& once.ledger == ledger_after(
                store.ledger,
                store.version(),
                first->Ok_0.final_version,
                now,
            )
        }),
{
    let found = store.version();
    if found <= target {
        law_version_reached(store, catalog, target, now);
    }
}

/// Fail-stop containment, whatever fault is planted: a run ends outside
/// any transaction with the store at a step boundary. It holds what the
/// steps up to the version it reports brought about and nothing of a later
/// step, and the error names that version. After a failure the fault is
/// spent, and a second run reaches the target.
pub proof fn law_containment(store: StoreState, catalog: Seq<StepView>, target: nat, now: u64)
    requires
        store.wf(),
        !store.in_transaction(),
        gap_free(catalog),
        target <= catalog.len(),
        target <= u64::MAX,
        store.version() <= target,
    ensures
        ({
            let (next, result) = migrate(store, catalog, target, now);
            let reached = next.version();
            &&& next.wf()
            &&& !next.in_transaction()
            &&& store.version() <= reached <= target
            &&& next.schema == schema_after(store.schema, catalog, store.version(), reached)
            &&& next.ledger == ledger_after(store.ledger, store.version(), reached, now)
            &&& match result {
                Ok(outcome) => reached == target && outcome.final_version == target,
                Err(FailureView::FindVersion) => reached == store.version(),
                Err(FailureView::Upgrade { current_version, target_version }) => reached < target
                    && current_version == reached && target_version == target,
                Err(FailureView::Open(_)) => false,
            }
            &&& result is Err ==> next.fault is None && migrate(next, catalog, target, now).1 is Ok
                && migrate(next, catalog, target, now).0.version() == target
        }),
{
    let found = store.version();
    let (scanned, rows) = store.scan();
    if rows is Some {
        lemma_run_steps(scanned, catalog, found, target, now);
        let (next, reached, done) = run_steps(scanned, catalog, found, target, now);
        if found < reached {
            lemma_highest_version_after(store.ledger, found, reached, now);
        }
        if !done {
            law_version_reached(next, catalog, target, now);
        }
    } else {
        law_version_reached(scanned, catalog, target, now);
    }
}

/// Fail-stop containment: where the second operation of the next step
/// fails, the run reports the version that the store was at, and leaves
/// artifacts and ledger as they were. A second run then succeeds and
/// reaches the target.
pub proof fn law_fail_stop(store: StoreState, catalog: Seq<StepView>, target: nat, now: u64)
    requires
        store.wf(),
        !store.in_transaction(),
        gap_free(catalog),
        target <= catalog.len(),
        target <= u64::MAX,
        store.version() < target,
        catalog[store.version() as int].operations.len() >= 2,
        store.fault == Some(Fault { site: FaultSite::Operation, skip: 1 }),
    ensures
        ({
            let (failed, first) = migrate(store, catalog, target, now);
            let (mended, second) = migrate(failed, catalog, target, now);
            &&& first == Err::<OutcomeView, FailureView>(
                FailureView::Upgrade {
                    current_version: store.version() as u64,
                    target_version: target as u64,
                },
            )
            &&& failed == store.with_fault(None)
            &&& second is Ok
            &&& second->Ok_0.final_version == target
            &&& mended.version() == target
        }),
{
    let found = store.version();
    let step = catalog[found as int];
    let operations = step.operations;
    let (begun, _) = store.begin();
    let (one, _) = begun.apply(operations[0]);
    let (two, _) = one.apply(operations[1]);
    assert(apply_from(one, operations, 1) == (two, false));
    assert(apply_all(begun, operations) == (two, false));
    lemma_apply_from(begun, operations, 0);
    assert(two.abort().schema == store.schema);
    assert(two.abort().ledger =~= store.ledger);
    assert(attempt_step(store, step, now) == (store.with_fault(None), false));
    assert(run_steps(store, catalog, found, target, now) == (store.with_fault(None), found, false));
    law_version_reached(store.with_fault(None), catalog, target, now);
}

/// Empty-store bootstrap: a fresh store reports version 0. After one run
/// to `target` it reports `target`, and its ledger holds exactly one row
/// for each version from 1 to `target`, in order.
pub proof fn law_bootstrap(catalog: Seq<StepView>, target: nat, now: u64)
    requires
        gap_free(catalog),
        target <= catalog.len(),
        target <= u64::MAX,
    ensures
        StoreState::empty().wf(),
        StoreState::empty().version() == 0,
        ({
            let (next, result) = migrate(StoreState::empty(), catalog, target, now);
            &&& result is Ok
            &&& result->Ok_0.final_version == target
            &&& next.version() == target
            &&& next.ledger.len() == target
            &&& forall|k: int| 0 <= k < target ==> #[trigger] next.ledger[k] == version_row((k + 1) as nat, now)
        }),
{
    law_version_reached(StoreState::empty(), catalog, target, now);
}

/// A run that finds a transaction open, on a store below the target,
/// fails at once and leaves the store untouched: it neither sees nor
/// disturbs what the open transaction has done so far.
pub proof fn law_open_transaction_untouched(
    store: StoreState,
    catalog: Seq<StepView>,
    target: nat,
    now: u64,
)
    requires
        store.wf(),
        store.in_transaction(),
        store.fault is None,
        store.version() < target,
    ensures
        migrate(store, catalog, target, now) == (
            store,
            Err::<OutcomeView, FailureView>(
                FailureView::Upgrade {
                    current_version: store.version() as u64,
                    target_version: target as u64,
                },
            ),
        ),
{
}

/// The fresh store once the standard catalog took it to version 1.
pub open spec fn bootstrapped(now: u64) -> StoreState {
    StoreState {
        schema: version_1_operations(),
        ledger: seq![version_row(1, now)],
        savepoint: None,
        fault: None,
    }
}

/// What the run that takes a fresh store to version 1 returns.
pub open spec fn bootstrap_outcome() -> OutcomeView {
    OutcomeView { applied_steps: seq!["Upgraded to version 1"@], final_version: 1 }
}

/// No two operations of the step to version 1 bring about the same
/// artifact.
pub proof fn lemma_version_1_distinct()
    ensures
        distinct(version_1_operations()),
{
    reveal_strlit("database_version");
    reveal_strlit("version");
    reveal_strlit("timestamp");
    reveal_strlit("Article");
    reveal_strlit("Element");
    reveal_strlit("DataType");
    reveal_strlit("timestamp_created");
    reveal_strlit("article_id");
    reveal_strlit("data_type_id");
    reveal_strlit("name");
    reveal_strlit("table_id");
    reveal_strlit("data_type");
    assert("Article"@[0] != "Element"@[0]);
    assert("version"@.len() != "timestamp"@.len());
    assert("article_id"@.len() != "data_type_id"@.len());
    assert("name"@.len() != "table_id"@.len());
    assert("name"@.len() != "data_type"@.len());
    assert("table_id"@.len() != "data_type"@.len());
    let operations = version_1_operations();
    let ledger = "database_version"@;
    let article = "Article"@;
    let element = "Element"@;
    let data_type = "DataType"@;
    assert(ledger.len() == 16 && article.len() == 7 && element.len() == 7 && data_type.len() == 8);
    assert(operations.len() == 12);
    assert(operations[0].key() == ArtifactKey::Collection { name: ledger });
    assert(operations[1].key() == ArtifactKey::Field { collection: ledger, field: "version"@ });
    assert(operations[2].key() == ArtifactKey::Field { collection: ledger, field: "timestamp"@ });
    assert(operations[3].key() == ArtifactKey::Collection { name: article });
    assert(operations[4].key() == ArtifactKey::Collection { name: element });
    assert(operations[5].key() == ArtifactKey::Collection { name: data_type });
    assert(operations[6].key() == ArtifactKey::Field {
        collection: article,
        field: "timestamp_created"@,
    });
    assert(operations[7].key() == ArtifactKey::Field { collection: element, field: "article_id"@ });
    assert(operations[8].key() == ArtifactKey::Field {
        collection: element,
        field: "data_type_id"@,
    });
    assert(operations[9].key() == ArtifactKey::Field { collection: data_type, field: "name"@ });
    assert(operations[10].key() == ArtifactKey::Field { collection: data_type, field: "table_id"@ });
    assert(operations[11].key() == ArtifactKey::Field {
        collection: data_type,
        field: "data_type"@,
    });
    assert forall|i: int, j: int| 0 <= i < j < operations.len() implies (#[trigger] operations[i]).key()
        != (#[trigger] operations[j]).key() by {
        if i < 3 {
            if j < 3 {
            } else if j < 6 {
            } else {
            }
        } else if i < 6 {
            if j < 6 {
            } else {
            }
        } else {
        }
    }
}

/// The scenario of a fresh store and the standard catalog: one run takes
/// the store to version 1, reports the one step it applied, and leaves a
/// ledger of exactly one row, for version 1.
pub proof fn law_standard_bootstrap(now: u64)
    ensures
        migrate(StoreState::empty(), standard_catalog(), 1, now) == (
            bootstrapped(now),
            Ok::<OutcomeView, FailureView>(bootstrap_outcome()),
        ),
        bootstrapped(now).wf(),
        bootstrapped(now).version() == 1,
{
    let fresh = StoreState::empty();
    let catalog = standard_catalog();
    let operations = version_1_operations();
    law_version_reached(fresh, catalog, 1, now);
    lemma_version_1_distinct();
    lemma_with_artifacts_distinct(operations, 0);
    assert(operations.take(0) =~= fresh.schema);
    assert(schema_after(fresh.schema, catalog, 0, 1) == operations) by {
        assert(schema_after(operations, catalog, 1, 1) == operations);
    }
    assert(ledger_after(fresh.ledger, 0, 1, now) =~= seq![version_row(1, now)]);
    assert(descriptions(0, 1) =~= seq!["Upgraded to version 1"@]) by {
        reveal_strlit("Upgraded to version ");
        reveal_strlit("Upgraded to version 1");
        assert(decimal(1) =~= seq!['1']);
        assert(step_description(1) =~= "Upgraded to version 1"@);
    }
}

} // verus!
