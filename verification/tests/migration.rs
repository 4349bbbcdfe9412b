use reassociate::db::catalog::{Catalog, FieldKind, MigrationStep, Operation};
use reassociate::db::get_db;
use reassociate::db::ledger::{LedgerRow, SchemaVersion};
use reassociate::db::report::{DatabaseOpenError, UpgradeOutcome};
use reassociate::db::runner::{Action, Event, MigrationRunner};
use reassociate::db::store::{Fault, FaultSite, MemoryStore};
use reassociate::db::upgrade::upgrade_to_version_1;

fn three_steps() -> Catalog {
    Catalog::new(vec![
        MigrationStep::version_1(),
        MigrationStep::new(
            2,
            vec![
                Operation::create_collection("Tag"),
                Operation::define_field("Tag", "label", FieldKind::Text, true),
                Operation::seed_reference_data("DataType", "text", "{ name: 'text' }"),
            ],
        ),
        MigrationStep::new(
            3,
            vec![Operation::define_field("Article", "title", FieldKind::Text, false)],
        ),
    ])
    .unwrap()
}

fn run(store: &mut MemoryStore, target: u64, now: u64) -> Result<UpgradeOutcome, DatabaseOpenError> {
    MigrationRunner::new(three_steps(), target).unwrap().run(store, now)
}

#[test]
fn fresh_store_scenario() {
    let mut store = MemoryStore::new();
    assert_eq!(store.current_version(), Ok(0));
    let outcome = MigrationRunner::new(Catalog::standard(), 1).unwrap().run(&mut store, 1234);
    assert_eq!(
        outcome,
        Ok(UpgradeOutcome {
            applied_steps: vec!["Upgraded to version 1".to_string()],
            final_version: 1,
        })
    );
    assert_eq!(store.ledger().entries(), vec![SchemaVersion { version: 1, timestamp: 1234 }]);
    assert_eq!(store.ledger().len(), 1);
    assert_eq!(store.current_version(), Ok(1));
    assert!(store.has_collection("Article"));
    assert!(store.has_collection("Element"));
    assert!(store.has_collection("DataType"));
    assert!(store.has_collection("database_version"));
    assert!(store.has_field("Article", "timestamp_created"));
    assert!(store.has_field("Element", "article_id"));
    assert!(store.has_field("Element", "data_type_id"));
    assert!(store.has_field("DataType", "name"));
    assert!(store.has_field("DataType", "table_id"));
    assert!(store.has_field("DataType", "data_type"));
    assert_eq!(store.artifact_count(), 12);
    assert!(!store.in_transaction());
}

#[test]
fn get_db_is_at_the_current_version() {
    let mut db = get_db(77).unwrap();
    assert_eq!(db.current_version(), Ok(1));
    assert_eq!(db.ledger().rows(), vec![LedgerRow::new(1, 77)]);
    assert_eq!(db.artifact_count(), 12);
    assert!(db.has_collection("Article"));
    assert!(!db.in_transaction());
    assert_eq!(db.planted_fault(), None);
}

#[test]
fn upgrade_to_version_1_on_a_fresh_store() {
    let mut db = MemoryStore::new();
    assert_eq!(
        upgrade_to_version_1(&mut db, 5),
        Ok(UpgradeOutcome {
            applied_steps: vec!["Upgraded to version 1".to_string()],
            final_version: 1,
        })
    );
    assert_eq!(db.current_version(), Ok(1));
    assert_eq!(
        upgrade_to_version_1(&mut db, 6),
        Ok(UpgradeOutcome { applied_steps: Vec::new(), final_version: 1 })
    );
    assert_eq!(db.ledger().rows(), vec![LedgerRow::new(1, 5)]);
}

#[test]
fn running_twice_changes_nothing_more() {
    let mut store = MemoryStore::new();
    let first = run(&mut store, 3, 10).unwrap();
    assert_eq!(first.final_version, 3);
    assert_eq!(
        first.applied_steps,
        vec!["Upgraded to version 1", "Upgraded to version 2", "Upgraded to version 3"]
    );
    let artifacts = store.artifact_count();
    assert_eq!(artifacts, 16);
    let rows = store.ledger().rows();
    assert_eq!(rows, vec![LedgerRow::new(1, 10), LedgerRow::new(2, 10), LedgerRow::new(3, 10)]);
    let second = run(&mut store, 3, 20).unwrap();
    assert_eq!(second.final_version, 3);
    assert!(second.applied_steps.is_empty());
    assert_eq!(store.artifact_count(), artifacts);
    assert_eq!(store.ledger().rows(), rows);
}

#[test]
fn version_is_reported_after_each_target() {
    let mut store = MemoryStore::new();
    for target in 0..=3u64 {
        let outcome = run(&mut store, target, 100 + target).unwrap();
        assert_eq!(outcome.final_version, target);
        assert_eq!(store.current_version(), Ok(target));
        assert_eq!(store.ledger().len(), target as usize);
    }
    assert_eq!(
        store.ledger().rows(),
        vec![LedgerRow::new(1, 101), LedgerRow::new(2, 102), LedgerRow::new(3, 103)]
    );
}

#[test]
fn a_store_beyond_the_target_is_left_alone() {
    let mut store = MemoryStore::new();
    run(&mut store, 3, 1).unwrap();
    let outcome = run(&mut store, 1, 2).unwrap();
    assert_eq!(outcome, UpgradeOutcome { applied_steps: Vec::new(), final_version: 3 });
    assert_eq!(store.current_version(), Ok(3));
}

#[test]
fn failure_in_the_second_operation_leaves_the_last_version() {
    let mut store = MemoryStore::new();
    run(&mut store, 1, 1).unwrap();
    let artifacts = store.artifact_count();
    store.plant_fault(Some(Fault { site: FaultSite::Operation, skip: 1 }));
    assert_eq!(
        run(&mut store, 3, 2),
        Err(DatabaseOpenError::Upgrade { current_version: 1, target_version: 3 })
    );
    assert_eq!(store.current_version(), Ok(1));
    assert_eq!(store.artifact_count(), artifacts);
    assert!(!store.has_collection("Tag"));
    assert_eq!(store.ledger().rows(), vec![LedgerRow::new(1, 1)]);
    assert!(!store.in_transaction());
    assert_eq!(store.planted_fault(), None);

    let outcome = run(&mut store, 3, 3).unwrap();
    assert_eq!(outcome.final_version, 3);
    assert_eq!(outcome.applied_steps, vec!["Upgraded to version 2", "Upgraded to version 3"]);
    assert_eq!(store.current_version(), Ok(3));
    assert!(store.has_collection("Tag"));
    assert!(store.has_field("Tag", "label"));
    assert!(store.has_seed("DataType", "text"));
    assert!(store.has_field("Article", "title"));
    assert_eq!(
        store.ledger().rows(),
        vec![LedgerRow::new(1, 1), LedgerRow::new(2, 3), LedgerRow::new(3, 3)]
    );
}

#[test]
fn failure_in_a_later_step_keeps_the_earlier_steps() {
    let mut store = MemoryStore::new();
    store.plant_fault(Some(Fault { site: FaultSite::Commit, skip: 1 }));
    assert_eq!(
        run(&mut store, 3, 9),
        Err(DatabaseOpenError::Upgrade { current_version: 1, target_version: 3 })
    );
    assert_eq!(store.current_version(), Ok(1));
    assert_eq!(store.artifact_count(), 12);
    assert_eq!(store.ledger().rows(), vec![LedgerRow::new(1, 9)]);
    assert!(!store.in_transaction());
}

#[test]
fn failure_to_record_aborts_the_step() {
    let mut store = MemoryStore::new();
    store.plant_fault(Some(Fault { site: FaultSite::Record, skip: 0 }));
    assert_eq!(
        run(&mut store, 2, 9),
        Err(DatabaseOpenError::Upgrade { current_version: 0, target_version: 2 })
    );
    assert_eq!(store.artifact_count(), 0);
    assert_eq!(store.ledger().len(), 0);
    assert!(!store.in_transaction());
    assert_eq!(run(&mut store, 2, 10).unwrap().final_version, 2);
}

#[test]
fn failure_to_begin_is_an_upgrade_error() {
    let mut store = MemoryStore::new();
    store.plant_fault(Some(Fault { site: FaultSite::Begin, skip: 0 }));
    assert_eq!(
        run(&mut store, 1, 9),
        Err(DatabaseOpenError::Upgrade { current_version: 0, target_version: 1 })
    );
    assert_eq!(store.artifact_count(), 0);
    assert_eq!(store.current_version(), Ok(0));
}

#[test]
fn failure_to_scan_is_a_find_version_error() {
    let mut store = MemoryStore::new();
    store.plant_fault(Some(Fault { site: FaultSite::ReadLedger, skip: 0 }));
    assert_eq!(run(&mut store, 3, 9), Err(DatabaseOpenError::FindVersion));
    assert_eq!(store.artifact_count(), 0);
    assert_eq!(store.ledger().len(), 0);
    assert_eq!(run(&mut store, 3, 9).unwrap().final_version, 3);
}

#[test]
fn a_fault_that_is_not_reached_stays_planted() {
    let mut store = MemoryStore::new();
    store.plant_fault(Some(Fault { site: FaultSite::Operation, skip: 100 }));
    assert_eq!(run(&mut store, 3, 9).unwrap().final_version, 3);
    assert_eq!(store.planted_fault(), Some(Fault { site: FaultSite::Operation, skip: 84 }));
}

#[test]
fn malformed_ledger_rows_do_not_stop_a_run() {
    let mut store = MemoryStore::new();
    run(&mut store, 1, 1).unwrap();
    let mut runner = MigrationRunner::new(three_steps(), 2).unwrap();
    runner.advance(Event::LedgerScanned(vec![
        LedgerRow { version: Some(7), timestamp: None },
        LedgerRow::new(1, 1),
    ]));
    assert_eq!(runner.current_version(), 1);
    assert_eq!(runner.next_action(), Action::Begin);
}

#[test]
fn a_run_inside_an_open_transaction_fails_at_once() {
    let mut store = MemoryStore::new();
    let mut first = MigrationRunner::new(three_steps(), 1).unwrap();
    let scan = store.perform(&first.next_action(), 1);
    first.advance(scan);
    let begun = store.perform(&first.next_action(), 1);
    first.advance(begun);
    let applied = store.perform(&first.next_action(), 1);
    first.advance(applied);
    assert!(store.in_transaction());
    assert_eq!(store.artifact_count(), 1);

    assert_eq!(
        run(&mut store, 1, 2),
        Err(DatabaseOpenError::Upgrade { current_version: 0, target_version: 1 })
    );
    assert!(store.in_transaction());
    assert_eq!(store.artifact_count(), 1);

    loop {
        let action = first.next_action();
        if action == Action::Stop {
            break;
        }
        let event = store.perform(&action, 1);
        first.advance(event);
    }
    assert_eq!(first.finish().unwrap().unwrap().final_version, 1);
    assert_eq!(store.current_version(), Ok(1));
    assert_eq!(store.ledger().rows(), vec![LedgerRow::new(1, 1)]);
    assert_eq!(run(&mut store, 1, 3).unwrap().applied_steps.len(), 0);
}

#[test]
fn perform_answers_each_action() {
    let mut store = MemoryStore::new();
    assert_eq!(store.perform(&Action::ScanLedger, 0), Event::LedgerScanned(Vec::new()));
    assert_eq!(store.perform(&Action::Commit, 0), Event::Failed);
    assert_eq!(store.perform(&Action::Record { version: 1 }, 0), Event::Failed);
    assert_eq!(store.perform(&Action::Begin, 0), Event::Succeeded);
    assert_eq!(store.perform(&Action::Begin, 0), Event::Failed);
    assert_eq!(
        store.perform(&Action::Apply(Operation::create_collection("A")), 0),
        Event::Succeeded
    );
    assert_eq!(store.perform(&Action::Record { version: 1 }, 44), Event::Succeeded);
    assert_eq!(store.perform(&Action::Stop, 0), Event::Succeeded);
    assert_eq!(store.perform(&Action::Commit, 0), Event::Succeeded);
    assert_eq!(store.perform(&Action::ScanLedger, 0), Event::LedgerScanned(vec![LedgerRow::new(1, 44)]));
    assert_eq!(store.perform(&Action::Abort, 0), Event::Succeeded);
    assert!(store.has_collection("A"));
    store.plant_fault(Some(Fault { site: FaultSite::ReadLedger, skip: 0 }));
    assert_eq!(store.perform(&Action::ScanLedger, 0), Event::Failed);
}
