use reassociate::db::catalog::{Catalog, MigrationStep, Operation};
use reassociate::db::ledger::LedgerRow;
use reassociate::db::report::{DatabaseOpenError, UpgradeOutcome};
use reassociate::db::runner::{Action, Event, MigrationRunner, Phase};

fn two_steps() -> Catalog {
    Catalog::new(vec![
        MigrationStep::new(
            1,
            vec![Operation::create_collection("A"), Operation::create_collection("B")],
        ),
        MigrationStep::new(2, Vec::new()),
    ])
    .unwrap()
}

#[test]
fn runner_needs_a_step_to_its_target() {
    assert!(MigrationRunner::new(two_steps(), 3).is_none());
    assert!(MigrationRunner::new(two_steps(), 2).is_some());
    assert!(MigrationRunner::new(two_steps(), 0).is_some());
    assert!(MigrationRunner::new(Catalog::standard(), 2).is_none());
}

#[test]
fn runner_starts_by_scanning_the_ledger() {
    let runner = MigrationRunner::new(two_steps(), 2).unwrap();
    assert_eq!(runner.phase(), Phase::Opened);
    assert_eq!(runner.target_version(), 2);
    assert_eq!(runner.current_version(), 0);
    assert_eq!(runner.next_action(), Action::ScanLedger);
    assert_eq!(runner.finish(), None);
}

#[test]
fn runner_walks_through_every_pending_step() {
    let mut runner = MigrationRunner::new(two_steps(), 2).unwrap();
    runner.advance(Event::LedgerScanned(Vec::new()));
    assert_eq!(runner.phase(), Phase::Begin);
    assert_eq!(runner.next_action(), Action::Begin);
    runner.advance(Event::Succeeded);
    assert_eq!(runner.phase(), Phase::Apply { index: 0 });
    assert_eq!(runner.next_action(), Action::Apply(Operation::create_collection("A")));
    runner.advance(Event::Succeeded);
    assert_eq!(runner.next_action(), Action::Apply(Operation::create_collection("B")));
    runner.advance(Event::Succeeded);
    assert_eq!(runner.next_action(), Action::Record { version: 1 });
    runner.advance(Event::Succeeded);
    assert_eq!(runner.next_action(), Action::Commit);
    assert_eq!(runner.current_version(), 0);
    runner.advance(Event::Succeeded);
    assert_eq!(runner.current_version(), 1);
    assert_eq!(runner.next_action(), Action::Begin);
    runner.advance(Event::Succeeded);
    assert_eq!(runner.next_action(), Action::Record { version: 2 });
    runner.advance(Event::Succeeded);
    assert_eq!(runner.next_action(), Action::Commit);
    runner.advance(Event::Succeeded);
    assert_eq!(runner.phase(), Phase::Ready);
    assert_eq!(runner.next_action(), Action::Stop);
    assert_eq!(
        runner.finish(),
        Some(Ok(UpgradeOutcome {
            applied_steps: vec![
                "Upgraded to version 1".to_string(),
                "Upgraded to version 2".to_string(),
            ],
            final_version: 2,
        }))
    );
}

#[test]
fn runner_takes_the_fast_path_at_the_target() {
    let mut runner = MigrationRunner::new(two_steps(), 2).unwrap();
    runner.advance(Event::LedgerScanned(vec![LedgerRow::new(1, 5), LedgerRow::new(2, 6)]));
    assert_eq!(runner.phase(), Phase::Ready);
    assert_eq!(runner.next_action(), Action::Stop);
    assert_eq!(
        runner.finish(),
        Some(Ok(UpgradeOutcome { applied_steps: Vec::new(), final_version: 2 }))
    );
}

#[test]
fn runner_resumes_from_the_version_found() {
    let mut runner = MigrationRunner::new(two_steps(), 2).unwrap();
    runner.advance(Event::LedgerScanned(vec![
        LedgerRow { version: None, timestamp: Some(1) },
        LedgerRow::new(1, 5),
    ]));
    assert_eq!(runner.current_version(), 1);
    assert_eq!(runner.next_action(), Action::Begin);
    runner.advance(Event::Succeeded);
    runner.advance(Event::Succeeded);
    runner.advance(Event::Succeeded);
    assert_eq!(
        runner.finish(),
        Some(Ok(UpgradeOutcome {
            applied_steps: vec!["Upgraded to version 2".to_string()],
            final_version: 2,
        }))
    );
}

#[test]
fn runner_leaves_a_store_beyond_the_target_alone() {
    let mut runner = MigrationRunner::new(two_steps(), 1).unwrap();
    runner.advance(Event::LedgerScanned(vec![LedgerRow::new(2, 5)]));
    assert_eq!(runner.phase(), Phase::Ready);
    assert_eq!(
        runner.finish(),
        Some(Ok(UpgradeOutcome { applied_steps: Vec::new(), final_version: 2 }))
    );
}

#[test]
fn runner_fails_when_the_ledger_cannot_be_scanned() {
    let mut runner = MigrationRunner::new(two_steps(), 2).unwrap();
    runner.advance(Event::Failed);
    assert_eq!(runner.phase(), Phase::FindVersionFailed);
    assert_eq!(runner.next_action(), Action::Stop);
    assert_eq!(runner.finish(), Some(Err(DatabaseOpenError::FindVersion)));
}

#[test]
fn runner_fails_without_abort_when_no_transaction_begins() {
    let mut runner = MigrationRunner::new(two_steps(), 2).unwrap();
    runner.advance(Event::LedgerScanned(Vec::new()));
    runner.advance(Event::Failed);
    assert_eq!(runner.phase(), Phase::UpgradeFailed);
    assert_eq!(runner.next_action(), Action::Stop);
    assert_eq!(
        runner.finish(),
        Some(Err(DatabaseOpenError::Upgrade { current_version: 0, target_version: 2 }))
    );
}

#[test]
fn runner_aborts_when_an_operation_fails() {
    let mut runner = MigrationRunner::new(two_steps(), 2).unwrap();
    runner.advance(Event::LedgerScanned(Vec::new()));
    runner.advance(Event::Succeeded);
    runner.advance(Event::Succeeded);
    runner.advance(Event::Failed);
    assert_eq!(runner.phase(), Phase::Abort);
    assert_eq!(runner.next_action(), Action::Abort);
    runner.advance(Event::Succeeded);
    assert_eq!(
        runner.finish(),
        Some(Err(DatabaseOpenError::Upgrade { current_version: 0, target_version: 2 }))
    );
}

#[test]
fn runner_aborts_when_the_record_fails() {
    let mut runner = MigrationRunner::new(two_steps(), 2).unwrap();
    runner.advance(Event::LedgerScanned(vec![LedgerRow::new(1, 0)]));
    runner.advance(Event::Succeeded);
    assert_eq!(runner.next_action(), Action::Record { version: 2 });
    runner.advance(Event::Failed);
    assert_eq!(runner.next_action(), Action::Abort);
    runner.advance(Event::Failed);
    assert_eq!(
        runner.finish(),
        Some(Err(DatabaseOpenError::Upgrade { current_version: 1, target_version: 2 }))
    );
}

#[test]
fn runner_aborts_when_the_commit_fails() {
    let mut runner = MigrationRunner::new(two_steps(), 2).unwrap();
    runner.advance(Event::LedgerScanned(vec![LedgerRow::new(1, 0)]));
    runner.advance(Event::Succeeded);
    runner.advance(Event::Succeeded);
    assert_eq!(runner.next_action(), Action::Commit);
    runner.advance(Event::Failed);
    assert_eq!(runner.next_action(), Action::Abort);
    runner.advance(Event::Succeeded);
    assert_eq!(runner.current_version(), 1);
    assert_eq!(
        runner.finish(),
        Some(Err(DatabaseOpenError::Upgrade { current_version: 1, target_version: 2 }))
    );
}

#[test]
fn runner_counts_an_unfitting_answer_as_a_failure() {
    let mut runner = MigrationRunner::new(two_steps(), 2).unwrap();
    runner.advance(Event::Succeeded);
    assert_eq!(runner.phase(), Phase::FindVersionFailed);

    let mut other = MigrationRunner::new(two_steps(), 2).unwrap();
    other.advance(Event::LedgerScanned(Vec::new()));
    other.advance(Event::Succeeded);
    other.advance(Event::LedgerScanned(Vec::new()));
    assert_eq!(other.phase(), Phase::Abort);
}

#[test]
fn runner_stays_as_it_is_once_ended() {
    let mut runner = MigrationRunner::new(two_steps(), 0).unwrap();
    runner.advance(Event::LedgerScanned(Vec::new()));
    assert_eq!(runner.phase(), Phase::Ready);
    runner.advance(Event::Failed);
    assert_eq!(runner.phase(), Phase::Ready);
    runner.advance(Event::LedgerScanned(vec![LedgerRow::new(9, 9)]));
    assert_eq!(runner.phase(), Phase::Ready);
    assert_eq!(runner.current_version(), 0);
}

#[test]
fn action_statements() {
    assert_eq!(
        Action::ScanLedger.statement(0),
        "SELECT version, timestamp FROM database_version;"
    );
    assert_eq!(Action::Begin.statement(0), "BEGIN TRANSACTION;");
    assert_eq!(
        Action::Apply(Operation::create_collection("Article")).statement(0),
        "DEFINE TABLE Article SCHEMAFULL;"
    );
    assert_eq!(
        Action::Record { version: 12 }.statement(1700000000),
        "CREATE database_version SET version = 12, timestamp = 1700000000;"
    );
    assert_eq!(Action::Commit.statement(0), "COMMIT TRANSACTION;");
    assert_eq!(Action::Abort.statement(0), "CANCEL TRANSACTION;");
    assert_eq!(Action::Stop.statement(0), "");
}

#[test]
fn failures_in_words() {
    assert_eq!(
        DatabaseOpenError::Open("no such file".to_string()).message(),
        "could not open the store: no such file"
    );
    assert_eq!(
        DatabaseOpenError::FindVersion.message(),
        "could not find the schema version of the store"
    );
    assert_eq!(
        DatabaseOpenError::Upgrade { current_version: 3, target_version: 12 }.message(),
        "could not upgrade the store from version 3 to version 12"
    );
}
