use reassociate::db::fold::fold_result;
use reassociate::db::ledger::{highest_of, LedgerRow, SchemaVersion, VersionLedger};

#[test]
fn empty_ledger_reports_version_zero() {
    let ledger = VersionLedger::new();
    assert_eq!(ledger.current_version(), 0);
    assert_eq!(ledger.len(), 0);
    assert!(ledger.entries().is_empty());
}

#[test]
fn record_appends_one_entry() {
    let mut ledger = VersionLedger::new();
    ledger.record(1, 1000);
    assert_eq!(ledger.len(), 1);
    assert_eq!(ledger.current_version(), 1);
    assert_eq!(ledger.entries(), vec![SchemaVersion { version: 1, timestamp: 1000 }]);
    ledger.record(2, 2000);
    assert_eq!(ledger.len(), 2);
    assert_eq!(ledger.current_version(), 2);
    assert_eq!(
        ledger.rows(),
        vec![
            LedgerRow { version: Some(1), timestamp: Some(1000) },
            LedgerRow { version: Some(2), timestamp: Some(2000) },
        ]
    );
}

#[test]
fn current_version_is_the_maximum_not_the_last() {
    let mut ledger = VersionLedger::new();
    ledger.record(3, 10);
    ledger.record(1, 20);
    ledger.record(2, 30);
    assert_eq!(ledger.current_version(), 3);
}

#[test]
fn malformed_rows_are_skipped() {
    let rows = vec![
        LedgerRow { version: Some(2), timestamp: Some(5) },
        LedgerRow { version: Some(9), timestamp: None },
        LedgerRow { version: None, timestamp: Some(6) },
        LedgerRow { version: None, timestamp: None },
        LedgerRow { version: Some(1), timestamp: Some(7) },
    ];
    assert_eq!(highest_of(&rows), 2);
    let ledger = VersionLedger::from_rows(rows);
    assert_eq!(ledger.len(), 5);
    assert_eq!(ledger.current_version(), 2);
    assert_eq!(
        ledger.entries(),
        vec![
            SchemaVersion { version: 2, timestamp: 5 },
            SchemaVersion { version: 1, timestamp: 7 },
        ]
    );
}

#[test]
fn only_malformed_rows_report_version_zero() {
    let rows = vec![LedgerRow { version: Some(4), timestamp: None }];
    assert_eq!(highest_of(&rows), 0);
}

#[test]
fn ledger_row_decodes_when_whole() {
    assert_eq!(
        LedgerRow::new(7, 8).decode(),
        Some(SchemaVersion { version: 7, timestamp: 8 })
    );
    assert_eq!(LedgerRow { version: None, timestamp: Some(8) }.decode(), None);
    assert_eq!(LedgerRow { version: Some(7), timestamp: None }.decode(), None);
}

#[test]
fn highest_version_handles_the_largest_number() {
    let rows = vec![LedgerRow::new(u64::MAX, 0), LedgerRow::new(3, 0)];
    assert_eq!(highest_of(&rows), u64::MAX);
}

#[test]
fn fold_result_of_successes_is_success() {
    let results: Vec<Result<u8, String>> = vec![Ok(1), Ok(2), Ok(3)];
    assert_eq!(fold_result(results), Ok(()));
}

#[test]
fn fold_result_of_nothing_is_success() {
    let results: Vec<Result<u8, String>> = Vec::new();
    assert_eq!(fold_result(results), Ok(()));
}

#[test]
fn fold_result_returns_the_first_error() {
    let results: Vec<Result<u8, String>> = vec![
        Ok(1),
        Err("second".to_string()),
        Ok(3),
        Err("fourth".to_string()),
    ];
    assert_eq!(fold_result(results), Err("second".to_string()));
}

#[test]
fn fold_result_returns_a_lone_error_at_the_end() {
    let results: Vec<Result<u8, u32>> = vec![Ok(1), Ok(2), Err(77)];
    assert_eq!(fold_result(results), Err(77));
}
