use reth_db::{AccessMode, Database, DatabaseError, DbTx, MemDb, MemTx, MemTxMut, OpenFailure};
use std::cell::Cell;
use std::sync::Arc;

#[test]
fn view_open_failure_skips_body() {
    let db = MemDb::new(AccessMode::ReadWrite, 0);
    let calls = Cell::new(0u32);
    let r = db.view(|_tx: &MemTx| {
        calls.set(calls.get() + 1);
        7u64
    });
    assert_eq!(r, Err(DatabaseError::Open(OpenFailure::NoSlot)));
    assert_eq!(calls.get(), 0);
    assert_eq!(db.opened(), 0);
    assert_eq!(db.finalized(), 0);
    assert_eq!(db.active_readers(), 0);
}

#[test]
fn view_commit_success_returns_body_value() {
    let db = MemDb::new(AccessMode::ReadWrite, 4);
    let calls = Cell::new(0u32);
    let r = db.view(|_tx: &MemTx| {
        calls.set(calls.get() + 1);
        String::from("snapshot")
    });
    assert_eq!(r, Ok(String::from("snapshot")));
    assert_eq!(calls.get(), 1);
    assert_eq!(db.opened(), 1);
    assert_eq!(db.finalized(), 1);
    assert_eq!(db.active_readers(), 0);
}

#[test]
fn view_commit_failure_discards_body_value() {
    let db = MemDb::new(AccessMode::ReadWrite, 4).with_commit_fault(5);
    let calls = Cell::new(0u32);
    let r: Result<u64, DatabaseError> = db.view(|_tx: &MemTx| {
        calls.set(calls.get() + 1);
        42
    });
    assert_eq!(r, Err(DatabaseError::Commit(5)));
    assert_eq!(calls.get(), 1);
    assert_eq!(db.finalized(), 1);
    assert_eq!(db.active_readers(), 0);
}

#[test]
fn update_commit_failure_discards_body_value() {
    let db = MemDb::new(AccessMode::ReadWrite, 4).with_commit_fault(-30792);
    let r = db.update(|_tx: &MemTxMut| 1u8);
    assert_eq!(r, Err(DatabaseError::Commit(-30792)));
    assert!(!db.writer_active());
    assert_eq!(db.finalized(), 1);
}

fn counted_view<D: Database<TX = MemTx>>(db: &D) -> (Result<u64, DatabaseError>, u32) {
    let calls = Cell::new(0u32);
    let r = db.view(|_tx: &MemTx| {
        calls.set(calls.get() + 1);
        11u64
    });
    (r, calls.get())
}

#[test]
fn shared_handle_views_like_the_handle() {
    let configs = [
        MemDb::new(AccessMode::ReadWrite, 0),
        MemDb::new(AccessMode::ReadWrite, 2),
        MemDb::new(AccessMode::ReadOnly, 2).with_commit_fault(3),
    ];
    for db in configs {
        let direct = counted_view(&db);
        let shared = Arc::new(db);
        let through_arc = counted_view(&shared);
        assert_eq!(direct, through_arc);
        let nested = Arc::new(Arc::clone(&shared));
        assert_eq!(direct, counted_view(&nested));
    }
}

#[test]
fn borrowed_handle_views_like_the_handle() {
    let configs = [
        MemDb::new(AccessMode::ReadWrite, 0),
        MemDb::new(AccessMode::ReadWrite, 2),
        MemDb::new(AccessMode::ReadOnly, 2).with_commit_fault(3),
    ];
    for db in configs {
        let direct = counted_view(&db);
        let borrowed: &MemDb = &db;
        assert_eq!(direct, counted_view(&borrowed));
        assert_eq!(db.opened(), if db.max_readers == 0 { 0 } else { 2 });
    }
}

#[test]
fn wrappers_forward_write_opens() {
    let db = MemDb::new(AccessMode::ReadOnly, 1);
    let shared = Arc::new(MemDb::new(AccessMode::ReadOnly, 1));
    let direct = db.tx_mut().map(|_| ());
    let through_arc = shared.tx_mut().map(|_| ());
    let through_ref = <&MemDb as Database>::tx_mut(&&db).map(|_| ());
    assert_eq!(direct, Err(DatabaseError::Open(OpenFailure::ReadOnly)));
    assert_eq!(direct, through_arc);
    assert_eq!(direct, through_ref);
}

#[test]
fn two_updates_open_and_commit_twice() {
    let db = MemDb::new(AccessMode::ReadWrite, 4);
    let calls = Cell::new(0u32);
    let first = db.update(|_tx: &MemTxMut| {
        calls.set(calls.get() + 1);
        calls.get()
    });
    assert_eq!(db.opened(), 1);
    assert_eq!(db.finalized(), 1);
    let second = db.update(|_tx: &MemTxMut| {
        calls.set(calls.get() + 1);
        calls.get()
    });
    assert_eq!(first, Ok(1));
    assert_eq!(second, Ok(2));
    assert_eq!(calls.get(), 2);
    assert_eq!(db.opened(), 2);
    assert_eq!(db.finalized(), 2);
    assert!(!db.writer_active());
}

#[test]
fn read_only_handle_refuses_update() {
    let db = MemDb::new(AccessMode::ReadOnly, 4);
    assert_eq!(db.tx_mut().map(|_| ()), Err(DatabaseError::Open(OpenFailure::ReadOnly)));
    let calls = Cell::new(0u32);
    let r = db.update(|_tx: &MemTxMut| {
        calls.set(calls.get() + 1);
    });
    assert_eq!(r, Err(DatabaseError::Open(OpenFailure::ReadOnly)));
    assert_eq!(calls.get(), 0);
    assert_eq!(db.opened(), 0);
}

#[test]
fn read_only_error_differs_from_exhaustion() {
    let read_only = MemDb::new(AccessMode::ReadOnly, 0);
    let full = MemDb::new(AccessMode::ReadWrite, 0);
    let a = read_only.tx_mut().map(|_| ());
    let b = full.tx().map(|_| ());
    assert_eq!(a, Err(DatabaseError::Open(OpenFailure::ReadOnly)));
    assert_eq!(b, Err(DatabaseError::Open(OpenFailure::NoSlot)));
    assert_ne!(a, b);
}

#[test]
fn reader_slots_are_released_on_commit() {
    let db = MemDb::new(AccessMode::ReadWrite, 1);
    let held = db.tx().expect("first reader opens");
    assert_eq!(db.active_readers(), 1);
    assert_eq!(db.tx().map(|_| ()), Err(DatabaseError::Open(OpenFailure::NoSlot)));
    assert_eq!(db.view(|_tx: &MemTx| 1u8), Err(DatabaseError::Open(OpenFailure::NoSlot)));
    assert_eq!(held.commit(), Ok(()));
    assert_eq!(db.active_readers(), 0);
    assert_eq!(db.view(|_tx: &MemTx| 1u8), Ok(1));
}

#[test]
fn single_writer_at_a_time() {
    let db = MemDb::new(AccessMode::ReadWrite, 1);
    let inner = db.update(|_tx: &MemTxMut| db.update(|_tx: &MemTxMut| 5u8));
    assert_eq!(inner, Ok(Err(DatabaseError::Open(OpenFailure::NoSlot))));
    assert!(!db.writer_active());
    assert_eq!(db.opened(), 1);
    assert_eq!(db.update(|_tx: &MemTxMut| 5u8), Ok(5));
}

#[test]
fn read_inside_write_transaction() {
    let db = MemDb::new(AccessMode::ReadWrite, 1);
    let r = db.update(|_tx: &MemTxMut| db.view(|_tx: &MemTx| 9i32));
    assert_eq!(r, Ok(Ok(9)));
    assert_eq!(db.opened(), 2);
    assert_eq!(db.finalized(), 2);
}

#[test]
fn direct_commit_reports_engine_fault() {
    let db = MemDb::new(AccessMode::ReadWrite, 2).with_commit_fault(12);
    let tx = db.tx().expect("reader opens");
    assert_eq!(tx.commit_fault, Some(12));
    assert_eq!(tx.commit(), Err(DatabaseError::Commit(12)));
    let w = db.tx_mut().expect("writer opens");
    assert_eq!(w.commit(), Err(DatabaseError::Commit(12)));
    assert_eq!(db.opened(), 2);
    assert_eq!(db.finalized(), 2);
}

#[test]
fn builder_keeps_configuration() {
    let db = MemDb::new(AccessMode::ReadOnly, 3);
    assert_eq!(db.mode, AccessMode::ReadOnly);
    assert_eq!(db.max_readers, 3);
    assert_eq!(db.commit_fault, None);
    let db = db.with_commit_fault(-1);
    assert_eq!(db.mode, AccessMode::ReadOnly);
    assert_eq!(db.max_readers, 3);
    assert_eq!(db.commit_fault, Some(-1));
}

#[test]
fn error_kinds_are_told_apart() {
    assert!(DatabaseError::Open(OpenFailure::NoSlot).is_open_failure());
    assert!(DatabaseError::Open(OpenFailure::ReadOnly).is_open_failure());
    assert!(!DatabaseError::Commit(0).is_open_failure());
}
