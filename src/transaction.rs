use vstd::prelude::*;

use crate::error::DatabaseError;

verus! {

/// A read-only transaction: a view of the store that must be committed to release the
/// resources the engine holds for it.
pub trait DbTx: Sized {
    /// What committing this transaction returns.
    spec fn commit_result(&self) -> Result<(), DatabaseError>;

    /// Finalizes the transaction, which ends its lifetime whether or not it succeeds.
    fn commit(self) -> (r: Result<(), DatabaseError>)
        ensures
            r == self.commit_result(),
    ;
}

/// A read-write transaction. Its commit makes its writes visible, or fails leaving none
/// of them visible.
pub trait DbTxMut: DbTx {

}

} // verus!
