use std::cell::Cell;
use std::io;

use fault_shim::backend::{FaultError, TestBackend};
use fault_shim::driver::{run, run_iteration, Phase, Tally, TABLE_NAME};
use fault_shim::rate::FailureRate;
use redb::{ReadableTableMetadata, StorageBackend, TableDefinition};

#[derive(Debug)]
struct Engine(TestBackend);

fn to_io<T>(r: Result<T, FaultError>) -> Result<T, io::Error> {
    r.map_err(|e| match e {
        FaultError::Simulated => io::Error::new(io::ErrorKind::Other, "Simulated failure"),
        FaultError::Delegate(e) => e,
    })
}

impl StorageBackend for Engine {
    fn len(&self) -> Result<u64, io::Error> {
        to_io(self.0.len())
    }

    fn read(&self, offset: u64, len: usize) -> Result<Vec<u8>, io::Error> {
        to_io(self.0.read(offset, len))
    }

    fn set_len(&self, len: u64) -> Result<(), io::Error> {
        to_io(self.0.set_len(len))
    }

    fn sync_data(&self, eventual: bool) -> Result<(), io::Error> {
        to_io(self.0.sync_data(eventual))
    }

    fn write(&self, offset: u64, data: &[u8]) -> Result<(), io::Error> {
        to_io(self.0.write(offset, data))
    }
}

fn rate(parts: u32) -> FailureRate {
    FailureRate::per_million(parts).unwrap()
}

fn open_store(backend: &TestBackend) -> redb::Database {
    redb::Builder::new()
        .create_with_backend(Engine(backend.clone()))
        .unwrap()
}

fn entry_count(db: &redb::Database) -> u64 {
    let definition: TableDefinition<u128, bool> = TableDefinition::new(TABLE_NAME);
    let txn = db.begin_read().unwrap();
    match txn.open_table(definition) {
        Ok(table) => table.len().unwrap(),
        Err(redb::TableError::TableDoesNotExist(_)) => 0,
        Err(e) => panic!("{e}"),
    }
}

#[test]
fn rate_accepts_open_unit_interval_only() {
    assert!(FailureRate::per_million(0).is_none());
    assert!(FailureRate::per_million(1_000_000).is_none());
    assert!(FailureRate::per_million(u32::MAX).is_none());
    assert_eq!(FailureRate::per_million(1).unwrap().parts(), 1);
    assert_eq!(FailureRate::per_million(50_000).unwrap().parts(), 50_000);
    assert_eq!(FailureRate::per_million(999_999).unwrap().parts(), 999_999);
}

#[test]
fn new_backend_starts_disarmed() {
    let backend = TestBackend::new(rate(50_000));
    assert!(!backend.injection_enabled());
    assert_eq!(backend.len().unwrap(), 0);
}

#[test]
fn disarmed_calls_pass_through() {
    let backend = TestBackend::new(rate(50_000));
    backend.set_len(8).unwrap();
    assert_eq!(backend.len().unwrap(), 8);
    backend.write(2, &[7, 8, 9]).unwrap();
    assert_eq!(backend.read(0, 8).unwrap(), vec![0, 0, 7, 8, 9, 0, 0, 0]);
    assert_eq!(backend.read(3, 2).unwrap(), vec![8, 9]);
    backend.sync_data(true).unwrap();
    backend.sync_data(false).unwrap();
    backend.set_len(4).unwrap();
    assert_eq!(backend.read(0, 4).unwrap(), vec![0, 0, 7, 8]);
}

#[test]
fn disarmed_calls_forward_delegate_errors() {
    let backend = TestBackend::new(rate(50_000));
    backend.set_len(4).unwrap();
    match backend.read(2, 3) {
        Err(FaultError::Delegate(e)) => assert_eq!(e.kind(), io::ErrorKind::InvalidInput),
        other => panic!("unexpected {other:?}"),
    }
    match backend.write(4, &[1]) {
        Err(FaultError::Delegate(e)) => assert_eq!(e.kind(), io::ErrorKind::InvalidInput),
        other => panic!("unexpected {other:?}"),
    }
}

#[test]
fn disarmed_intercept_returns_delegate_output() {
    let backend = TestBackend::new(rate(50_000));
    let calls = Cell::new(0u32);
    let r = backend.intercept(|| {
        calls.set(calls.get() + 1);
        Ok::<u64, io::Error>(42)
    });
    assert_eq!(r.unwrap(), 42);
    assert_eq!(calls.get(), 1);
    let r = backend.intercept_with(false, || {
        calls.set(calls.get() + 1);
        Err::<u64, io::Error>(io::Error::new(io::ErrorKind::NotFound, "gone"))
    });
    match r {
        Err(FaultError::Delegate(e)) => assert_eq!(e.kind(), io::ErrorKind::NotFound),
        other => panic!("unexpected {other:?}"),
    }
    assert_eq!(calls.get(), 2);
}

#[test]
fn armed_calls_fail_without_invoking_delegate() {
    for parts in [1u32, 50_000, 500_000, 999_999] {
        let backend = TestBackend::new(rate(parts));
        backend.set_injection(true);
        let calls = Cell::new(0u32);
        for _ in 0..200 {
            let r = backend.intercept(|| {
                calls.set(calls.get() + 1);
                Ok::<u64, io::Error>(1)
            });
            assert!(matches!(r, Err(FaultError::Simulated)));
        }
        assert_eq!(calls.get(), 0);
    }
}

#[test]
fn armed_operations_all_fail_and_touch_nothing() {
    let backend = TestBackend::new(rate(50_000));
    backend.set_len(4).unwrap();
    backend.write(0, &[1, 2, 3, 4]).unwrap();
    backend.set_injection(true);
    assert!(matches!(backend.len(), Err(FaultError::Simulated)));
    assert!(matches!(backend.read(0, 4), Err(FaultError::Simulated)));
    assert!(matches!(backend.set_len(0), Err(FaultError::Simulated)));
    assert!(matches!(backend.sync_data(false), Err(FaultError::Simulated)));
    assert!(matches!(backend.write(0, &[9, 9, 9, 9]), Err(FaultError::Simulated)));
    backend.set_injection(false);
    assert_eq!(backend.read(0, 4).unwrap(), vec![1, 2, 3, 4]);
}

#[test]
fn maybe_fail_follows_the_flag_given() {
    let backend = TestBackend::new(rate(50_000));
    assert!(backend.maybe_fail(false).is_ok());
    assert!(matches!(backend.maybe_fail(true), Err(FaultError::Simulated)));
}

#[test]
fn toggle_takes_effect_on_next_call() {
    let backend = TestBackend::new(rate(50_000));
    let shared = backend.clone();
    assert_eq!(backend.len().unwrap(), 0);
    shared.set_injection(true);
    assert!(backend.injection_enabled());
    assert!(matches!(backend.len(), Err(FaultError::Simulated)));
    shared.set_injection(false);
    assert_eq!(backend.len().unwrap(), 0);
    shared.set_injection(true);
    assert!(matches!(backend.sync_data(true), Err(FaultError::Simulated)));
}

#[test]
fn phase_advances_step_by_step() {
    assert_eq!(Phase::Start.advance(true), Phase::TransactionOpen);
    assert_eq!(Phase::TransactionOpen.advance(true), Phase::Inserted);
    assert_eq!(Phase::Inserted.advance(true), Phase::Committed);
    assert_eq!(Phase::Start.advance(false), Phase::Failed);
    assert_eq!(Phase::TransactionOpen.advance(false), Phase::Failed);
    assert_eq!(Phase::Inserted.advance(false), Phase::Failed);
}

#[test]
fn iteration_commits_the_given_key() {
    let backend = TestBackend::new(rate(50_000));
    let db = open_store(&backend);
    assert_eq!(run_iteration(&db, 7).0, Phase::Committed);
    assert_eq!(run_iteration(&db, 7).0, Phase::Committed);
    assert_eq!(run_iteration(&db, 8).0, Phase::Committed);
    assert_eq!(entry_count(&db), 2);
    let definition: TableDefinition<u128, bool> = TableDefinition::new(TABLE_NAME);
    let txn = db.begin_read().unwrap();
    let table = txn.open_table(definition).unwrap();
    assert!(table.get(7u128).unwrap().unwrap().value());
    assert!(table.get(8u128).unwrap().unwrap().value());
    assert!(table.get(9u128).unwrap().is_none());
}

#[test]
fn disarmed_run_commits_every_iteration() {
    let backend = TestBackend::new(rate(50_000));
    let db = open_store(&backend);
    let tally = run(&db, 50).0;
    assert_eq!(tally, Tally { committed: 50, failed: 0 });
    assert_eq!(entry_count(&db), 50);
}

#[test]
fn armed_run_fails_every_iteration() {
    let backend = TestBackend::new(rate(50_000));
    let db = open_store(&backend);
    assert_eq!(run(&db, 5).0.committed, 5);
    backend.set_injection(true);
    let tally = run(&db, 40).0;
    assert_eq!(tally, Tally { committed: 0, failed: 40 });
    assert_eq!(run_iteration(&db, 1).0, Phase::Failed);
}

#[test]
fn run_of_zero_iterations_does_nothing() {
    let backend = TestBackend::new(rate(50_000));
    let db = open_store(&backend);
    assert_eq!(run(&db, 0).0, Tally { committed: 0, failed: 0 });
    assert_eq!(entry_count(&db), 0);
}

#[test]
fn end_to_end_thousand_then_armed_thousand() {
    let backend = TestBackend::new(rate(50_000));
    let db = open_store(&backend);
    let tally = run(&db, 1000).0;
    assert_eq!(tally.committed, 1000);
    assert_eq!(entry_count(&db), 1000);
    backend.set_injection(true);
    let tally = run(&db, 1000).0;
    assert_eq!(tally.committed + tally.failed, 1000);
    assert_eq!(tally.failed, 1000);
    backend.set_injection(false);
    assert_eq!(entry_count(&db), 1000);
}

#[test]
fn operations_follow_the_flag_given() {
    let backend = TestBackend::new(rate(50_000));
    backend.set_len_with(false, 6).unwrap();
    assert_eq!(backend.len_with(false).unwrap(), 6);
    backend.write_with(false, 1, &[5, 6]).unwrap();
    assert_eq!(backend.read_with(false, 0, 4).unwrap(), vec![0, 5, 6, 0]);
    backend.sync_data_with(false, true).unwrap();
    assert!(matches!(backend.len_with(true), Err(FaultError::Simulated)));
    assert!(matches!(backend.read_with(true, 0, 4), Err(FaultError::Simulated)));
    assert!(matches!(backend.set_len_with(true, 0), Err(FaultError::Simulated)));
    assert!(matches!(backend.sync_data_with(true, false), Err(FaultError::Simulated)));
    assert!(matches!(backend.write_with(true, 0, &[1]), Err(FaultError::Simulated)));
    assert!(matches!(backend.read_with(false, 5, 4), Err(FaultError::Delegate(_))));
    assert_eq!(backend.read(0, 6).unwrap(), vec![0, 5, 6, 0, 0, 0]);
}
