use greener_admin::connection::{validate_connection, ConnectOutcome, ProbeOutcome};
use greener_admin::datastore::DatastoreKind;
use greener_admin::error::ProvisionError;
use std::rc::Rc;

#[test]
fn unsupported_kind_is_refused_at_once() {
    let refused = validate_connection("oracle://db.example/app", "oracle").unwrap_err();
    assert_eq!(refused, ProvisionError::UnsupportedKind { declared: "oracle".to_string() });
    assert_eq!(
        refused.message(),
        "Unsupported database type: oracle (supported: postgres, mysql, sqlite)"
    );
}

#[test]
fn unsupported_kind_does_not_depend_on_the_url() {
    for url in ["", "postgres://localhost/app", "not a url"] {
        let refused = validate_connection(url, "mongodb").unwrap_err();
        assert_eq!(refused, ProvisionError::UnsupportedKind { declared: "mongodb".to_string() });
    }
}

#[test]
fn supported_kind_gives_a_pending_connection() {
    let pending = validate_connection("postgres://localhost/app", "Postgres").unwrap();
    assert_eq!(pending.url(), "postgres://localhost/app");
    assert_eq!(pending.kind(), DatastoreKind::Postgres);
}

#[test]
fn validation_succeeds_when_engine_matches_and_probe_answers() {
    let pending = validate_connection("sqlite::memory:", "sqlite").unwrap();
    let opened = pending.opened(ConnectOutcome::Opened { handle: (), backend: DatastoreKind::Sqlite }).unwrap();
    let connection = opened.probed(ProbeOutcome::Alive).unwrap();
    assert_eq!(connection.url(), "sqlite::memory:");
    assert_eq!(connection.kind(), DatastoreKind::Sqlite);
}

#[test]
fn connect_failure_is_reported_with_kind_url_and_cause() {
    let pending = validate_connection("mysql://nowhere/app", "MySQL").unwrap();
    let failed = pending
        .opened::<()>(ConnectOutcome::Failed { cause: "connection refused".to_string() })
        .unwrap_err();
    assert_eq!(
        failed,
        ProvisionError::ConnectFailed {
            declared: "MySQL".to_string(),
            url: "mysql://nowhere/app".to_string(),
            cause: "connection refused".to_string(),
        }
    );
    assert_eq!(failed.message(), "Failed to connect to MySQL database: connection refused");
}

#[test]
fn engine_of_another_kind_is_a_mismatch() {
    let pending = validate_connection("sqlite::memory:", "postgres").unwrap();
    let mismatch = pending
        .opened(ConnectOutcome::Opened { handle: (), backend: DatastoreKind::Sqlite })
        .unwrap_err();
    assert_eq!(
        mismatch,
        ProvisionError::KindMismatch {
            url: "sqlite::memory:".to_string(),
            expected: DatastoreKind::Postgres,
            actual: DatastoreKind::Sqlite,
        }
    );
    assert_eq!(mismatch.message(), "Database backend mismatch: expected Postgres, got Sqlite");
}

#[test]
fn every_pair_of_different_kinds_is_a_mismatch() {
    let kinds = [DatastoreKind::Postgres, DatastoreKind::MySql, DatastoreKind::Sqlite];
    for declared in kinds {
        for actual in kinds {
            let pending = validate_connection("db", declared.keyword()).unwrap();
            let opened = pending.opened(ConnectOutcome::Opened { handle: (), backend: actual });
            if declared == actual {
                assert!(opened.is_ok());
            } else {
                assert_eq!(
                    opened.unwrap_err(),
                    ProvisionError::KindMismatch {
                        url: "db".to_string(),
                        expected: declared,
                        actual,
                    }
                );
            }
        }
    }
}

#[test]
fn failed_probe_is_unreachable() {
    let pending = validate_connection("postgres://localhost/app", "postgres").unwrap();
    let opened = pending.opened(ConnectOutcome::Opened { handle: (), backend: DatastoreKind::Postgres }).unwrap();
    let unreachable = opened.probed(ProbeOutcome::Failed { cause: "timed out".to_string() }).unwrap_err();
    assert_eq!(
        unreachable,
        ProvisionError::Unreachable {
            url: "postgres://localhost/app".to_string(),
            cause: "timed out".to_string(),
        }
    );
    assert_eq!(unreachable.message(), "Failed to ping database: timed out");
}

#[test]
fn timeout_is_unset_until_it_is_set() {
    let pending = validate_connection("postgres://localhost/app", "postgres").unwrap();
    assert_eq!(pending.timeout(), None);
    let pending = pending.with_timeout(5);
    assert_eq!(pending.timeout(), Some(5));
    assert_eq!(pending.url(), "postgres://localhost/app");
    assert_eq!(pending.kind(), DatastoreKind::Postgres);
    let failed = pending
        .opened::<()>(ConnectOutcome::Failed { cause: "timed out".to_string() })
        .unwrap_err();
    assert_eq!(failed.message(), "Failed to connect to postgres database: timed out");
}

#[test]
fn handle_travels_with_the_validation() {
    let handle = Rc::new("handle");
    let pending = validate_connection("sqlite::memory:", "sqlite").unwrap();
    let opened = pending
        .opened(ConnectOutcome::Opened { handle: handle.clone(), backend: DatastoreKind::Sqlite })
        .unwrap();
    assert!(Rc::ptr_eq(opened.handle(), &handle));
    let connection = opened.probed(ProbeOutcome::Alive).unwrap();
    assert!(Rc::ptr_eq(connection.handle(), &handle));
    assert_eq!(Rc::strong_count(&handle), 2);
    drop(connection);
    assert_eq!(Rc::strong_count(&handle), 1);
}

#[test]
fn handle_is_released_when_the_validation_fails() {
    let handle = Rc::new("handle");

    let pending = validate_connection("sqlite::memory:", "postgres").unwrap();
    let mismatch = pending
        .opened(ConnectOutcome::Opened { handle: handle.clone(), backend: DatastoreKind::Sqlite });
    assert!(mismatch.is_err());
    assert_eq!(Rc::strong_count(&handle), 1);

    let pending = validate_connection("sqlite::memory:", "sqlite").unwrap();
    let opened = pending
        .opened(ConnectOutcome::Opened { handle: handle.clone(), backend: DatastoreKind::Sqlite })
        .unwrap();
    assert_eq!(Rc::strong_count(&handle), 2);
    let unreachable = opened.probed(ProbeOutcome::Failed { cause: "no answer".to_string() });
    assert!(unreachable.is_err());
    assert_eq!(Rc::strong_count(&handle), 1);
}
