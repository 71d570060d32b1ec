use vstd::prelude::*;

use crate::database::Database;
use crate::error::{DatabaseError, OpenFailure};
use crate::sealed::Sealed;
use crate::transaction::{DbTx, DbTxMut};
use std::sync::atomic::{AtomicBool, AtomicU64, Ordering};
use std::sync::Arc;

verus! {

/// How a handle was opened.
#[derive(Clone, Copy, Debug, PartialEq, Eq, Structural)]
pub enum AccessMode {
    /// Read-only transactions only.
    ReadOnly,
    /// Read-only and read-write transactions.
    ReadWrite,
}

/// Engine state that a handle shares with the transactions it opened: the slots in use
/// and how many transactions were opened and finalized.
#[derive(Debug)]
pub struct Slots {
    /// Read transactions open now.
    readers: AtomicU64,
    /// Whether a read-write transaction is open.
    writer: AtomicBool,
    /// Transactions opened so far.
    opened: AtomicU64,
    /// Transactions committed so far, whether the commit succeeded or not.
    finalized: AtomicU64,
}

/// The result of a commit on a handle whose engine reports `fault` at every commit.
pub open spec fn commit_outcome(fault: Option<i32>) -> Result<(), DatabaseError> {
    match fault {
        None => Ok(()),
        Some(code) => Err(DatabaseError::Commit(code)),
    }
}

/// The commit result that an engine reporting `fault` hands back.
fn finish(fault: Option<i32>) -> (r: Result<(), DatabaseError>)
    ensures
        r == commit_outcome(fault),
{
    match fault {
        None => Ok(()),
        Some(code) => Err(DatabaseError::Commit(code)),
    }
}

/// An in-memory engine handle. It holds at most `max_readers` read transactions and one
/// read-write transaction open at a time.
#[derive(Debug)]
pub struct MemDb {
    /// How the handle was opened.
    pub mode: AccessMode,
    /// How many read transactions may be open at once.
    pub max_readers: u64,
    /// The error code the engine reports at every commit, if any (a store that rejects
    /// finalization, such as a failed device).
    pub commit_fault: Option<i32>,
    /// The engine state shared with the transactions this handle opened.
    pub slots: Arc<Slots>,
}

/// A read-only transaction of a [`MemDb`].
#[derive(Debug)]
pub struct MemTx {
    /// The error code its commit reports, if any.
    pub commit_fault: Option<i32>,
    /// The engine state shared with the transactions this handle opened.
    pub slots: Arc<Slots>,
}

/// A read-write transaction of a [`MemDb`].
#[derive(Debug)]
pub struct MemTxMut {
    /// The error code its commit reports, if any.
    pub commit_fault: Option<i32>,
    /// The engine state shared with the transactions this handle opened.
    pub slots: Arc<Slots>,
}

impl DbTx for MemTx {
    open spec fn commit_result(&self) -> Result<(), DatabaseError> {
        commit_outcome(self.commit_fault)
    }

    fn commit(self) -> (r: Result<(), DatabaseError>) {
        self.slots.readers.fetch_sub(1, Ordering::AcqRel);
        self.slots.finalized.fetch_add(1, Ordering::AcqRel);
        finish(self.commit_fault)
    }
}

impl DbTx for MemTxMut {
    open spec fn commit_result(&self) -> Result<(), DatabaseError> {
        commit_outcome(self.commit_fault)
    }

    fn commit(self) -> (r: Result<(), DatabaseError>) {
        self.slots.writer.store(false, Ordering::Release);
        self.slots.finalized.fetch_add(1, Ordering::AcqRel);
        finish(self.commit_fault)
    }
}

impl DbTxMut for MemTxMut {

}

impl Sealed for MemDb {

}

impl Database for MemDb {
    type TX = MemTx;

    type TXMut = MemTxMut;

    /// A read transaction opens unless every reader slot is taken (always so when
    /// `max_readers` is zero); it commits as the handle's engine does.
    open spec fn tx_post(&self, r: Result<MemTx, DatabaseError>) -> bool {
        &&& self.max_readers == 0 ==> r is Err
        &&& match r {
            Ok(tx) => tx.commit_fault == self.commit_fault,
            Err(e) => e == DatabaseError::Open(OpenFailure::NoSlot),
        }
    }

    /// A read-only handle refuses every read-write transaction; otherwise one opens
    /// unless another is open, and commits as the handle's engine does.
    open spec fn tx_mut_post(&self, r: Result<MemTxMut, DatabaseError>) -> bool {
        match self.mode {
            AccessMode::ReadOnly => r == Err::<MemTxMut, DatabaseError>(
                DatabaseError::Open(OpenFailure::ReadOnly),
            ),
            AccessMode::ReadWrite => match r {
                Ok(tx) => tx.commit_fault == self.commit_fault,
                Err(e) => e == DatabaseError::Open(OpenFailure::NoSlot),
            },
        }
    }

    fn tx(&self) -> (r: Result<MemTx, DatabaseError>) {
        let before = self.slots.readers.fetch_add(1, Ordering::AcqRel);
        if before >= self.max_readers {
            self.slots.readers.fetch_sub(1, Ordering::AcqRel);
            return Err(DatabaseError::Open(OpenFailure::NoSlot));
        }
        self.slots.opened.fetch_add(1, Ordering::AcqRel);
        Ok(MemTx { commit_fault: self.commit_fault, slots: Arc::clone(&self.slots) })
    }

    fn tx_mut(&self) -> (r: Result<MemTxMut, DatabaseError>) {
        if self.mode == AccessMode::ReadOnly {
            return Err(DatabaseError::Open(OpenFailure::ReadOnly));
        }
        match self.slots.writer.compare_exchange(false, true, Ordering::AcqRel, Ordering::Acquire) {
            Ok(_) => {},
            Err(_) => return Err(DatabaseError::Open(OpenFailure::NoSlot)),
        }
        self.slots.opened.fetch_add(1, Ordering::AcqRel);
        Ok(MemTxMut { commit_fault: self.commit_fault, slots: Arc::clone(&self.slots) })
    }
}

impl MemDb {
    /// A fresh engine opened with `mode`, holding at most `max_readers` read
    /// transactions at once, whose commits succeed.
    pub fn new(mode: AccessMode, max_readers: u64) -> (db: MemDb)
        ensures
            db.mode == mode,
            db.max_readers == max_readers,
            db.commit_fault is None,
    {
        let slots = Slots {
            readers: AtomicU64::new(0),
            writer: AtomicBool::new(false),
            opened: AtomicU64::new(0),
            finalized: AtomicU64::new(0),
        };
        MemDb { mode, max_readers, commit_fault: None, slots: Arc::new(slots) }
    }

    /// The same handle, whose engine from now on reports `code` at every commit.
    pub fn with_commit_fault(self, code: i32) -> (db: MemDb)
        ensures
            db.mode == self.mode,
            db.max_readers == self.max_readers,
            db.commit_fault == Some(code),
    {
        MemDb { commit_fault: Some(code), ..self }
    }

    /// How many transactions this engine has opened.
    pub fn opened(&self) -> u64 {
        self.slots.opened.load(Ordering::Acquire)
    }

    /// How many transactions this engine has finalized, by a commit that succeeded or not.
    pub fn finalized(&self) -> u64 {
        self.slots.finalized.load(Ordering::Acquire)
    }

    /// How many read transactions are open now.
    pub fn active_readers(&self) -> u64 {
        self.slots.readers.load(Ordering::Acquire)
    }

    /// Whether a read-write transaction is open now.
    pub fn writer_active(&self) -> bool {
        self.slots.writer.load(Ordering::Acquire)
    }
}

} // verus!
