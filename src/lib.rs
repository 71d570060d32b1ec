//! Transactional access to a key/value storage engine.
//!
//! A [`Database`] handle opens read-only and read-write transactions. Its scoped
//! helpers `view` and `update` open a transaction, run a caller's function on it and
//! commit it before returning, so no transaction they open is left unfinalized. The
//! capability is sealed: only the backends of this crate implement it, while any
//! holder of a handle (owned, shared through `Arc`, or borrowed) may call it.
use vstd::prelude::*;

pub mod database;
pub mod error;
pub mod memory;
mod sealed;
pub mod transaction;

pub use database::{after_commit, scoped_post, Database};
pub use error::{DatabaseError, OpenFailure};
pub use memory::{AccessMode, MemDb, MemTx, MemTxMut, Slots};
pub use transaction::{DbTx, DbTxMut};

verus! {

} // verus!
