use vstd::prelude::*;

use crate::error::DatabaseError;
use crate::sealed::Sealed;
use crate::transaction::{DbTx, DbTxMut};
use std::sync::Arc;

verus! {

/// What a scoped call returns once its transaction is open: the body's value `v` when the
/// commit succeeds, and the commit's error otherwise (the value is then dropped).
pub open spec fn after_commit<T>(committed: Result<(), DatabaseError>, v: T) -> Result<
    T,
    DatabaseError,
> {
    match committed {
        Ok(()) => Ok(v),
        Err(e) => Err(e),
    }
}

/// The results a scoped call may return, where `opens` holds of each outcome that
/// opening its transaction may have: either opening failed with `e` and `r` is `Err(e)`
/// (the body never ran), or it produced `tx`, the body returned `v` on it, and `r` is what
/// committing `tx` makes of `v`.
pub open spec fn scoped_post<X: DbTx, T, F: FnOnce(&X) -> T>(
    opens: spec_fn(Result<X, DatabaseError>) -> bool,
    f: F,
    r: Result<T, DatabaseError>,
) -> bool {
    ||| (r matches Err(e) && opens(Err(e)))
    ||| exists|tx: X, v: T|
        #![trigger opens(Ok(tx)), f.ensures((&tx,), v)]
        opens(Ok(tx)) && f.ensures((&tx,), v) && r == after_commit(tx.commit_result(), v)
}

/// When no transaction can be opened, a scoped call returns the error that opening
/// produced (its body never ran, since no transaction existed to run it on).
pub proof fn lemma_open_failure_returned<X: DbTx, T, F: FnOnce(&X) -> T>(
    opens: spec_fn(Result<X, DatabaseError>) -> bool,
    f: F,
    r: Result<T, DatabaseError>,
)
    requires
        scoped_post(opens, f, r),
        forall|tx: X| !#[trigger] opens(Ok(tx)),
    ensures
        r matches Err(e) && opens(Err(e)),
{
}

/// When opening succeeds and so does the commit, a scoped call returns exactly what its
/// body returned on the opened transaction.
pub proof fn lemma_committed_returns_body_value<X: DbTx, T, F: FnOnce(&X) -> T>(
    opens: spec_fn(Result<X, DatabaseError>) -> bool,
    f: F,
    r: Result<T, DatabaseError>,
)
    requires
        scoped_post(opens, f, r),
        forall|o: Result<X, DatabaseError>| #[trigger] opens(o) ==> o is Ok,
        forall|tx: X| #[trigger] opens(Ok(tx)) ==> tx.commit_result() is Ok,
    ensures
        r is Ok,
        exists|tx: X| #[trigger] opens(Ok(tx)) && f.ensures((&tx,), r->Ok_0),
{
}

/// When opening succeeds but the commit fails, a scoped call returns the commit's error,
/// and the body's value appears nowhere in the result.
pub proof fn lemma_commit_failure_returned<X: DbTx, T, F: FnOnce(&X) -> T>(
    opens: spec_fn(Result<X, DatabaseError>) -> bool,
    f: F,
    r: Result<T, DatabaseError>,
)
    requires
        scoped_post(opens, f, r),
        forall|o: Result<X, DatabaseError>| #[trigger] opens(o) ==> o is Ok,
        forall|tx: X| #[trigger] opens(Ok(tx)) ==> tx.commit_result() is Err,
    ensures
        exists|tx: X| #[trigger] opens(Ok(tx)) && r == Err::<T, DatabaseError>(tx.commit_result()->Err_0),
{
}

/// A handle that can open read-only and read-write transactions.
///
/// Sealed: only this crate's handle types implement it; any holder of one may call it.
pub trait Database: Send + Sync + Sealed {
    /// Read-only transaction.
    type TX: DbTx + Send + Sync + std::fmt::Debug + 'static;

    /// Read-write transaction.
    type TXMut: DbTxMut + DbTx + Send + Sync + std::fmt::Debug + 'static;

    /// The outcomes that opening a read-only transaction may have.
    spec fn tx_post(&self, r: Result<Self::TX, DatabaseError>) -> bool;

    /// The outcomes that opening a read-write transaction may have.
    spec fn tx_mut_post(&self, r: Result<Self::TXMut, DatabaseError>) -> bool;

    /// Opens a read-only transaction.
    fn tx(&self) -> (r: Result<Self::TX, DatabaseError>)
        ensures
            self.tx_post(r),
    ;

    /// Opens a read-write transaction; only possible on a handle with write access.
    fn tx_mut(&self) -> (r: Result<Self::TXMut, DatabaseError>)
        ensures
            self.tx_mut_post(r),
    ;

    /// Runs `f` on a new read-only transaction and commits that transaction before
    /// returning. When opening fails, `f` is not run and the error comes back; when the
    /// commit fails, its error comes back in place of `f`'s value.
    fn view<T, F: FnOnce(&Self::TX) -> T>(&self, f: F) -> (r: Result<T, DatabaseError>)
        requires
            forall|tx: Self::TX| #[trigger] self.tx_post(Ok(tx)) ==> f.requires((&tx,)),
        ensures
            scoped_post(|o| self.tx_post(o), f, r),
    {
        let ghost opens = |o| self.tx_post(o);
        let tx = match self.tx() {
            Ok(tx) => tx,
            Err(e) => {
                assert(opens(Err(e)));
                return Err(e);
            },
        };
        let res = f(&tx);
        let ghost opened = tx;
        assert(opens(Ok(opened)) && f.ensures((&opened,), res));
        match tx.commit() {
            Ok(()) => Ok(res),
            Err(e) => Err(e),
        }
    }

    /// Runs `f` on a new read-write transaction and commits that transaction before
    /// returning. When opening fails, `f` is not run and the error comes back; when the
    /// commit fails, its error comes back in place of `f`'s value.
    fn update<T, F: FnOnce(&Self::TXMut) -> T>(&self, f: F) -> (r: Result<T, DatabaseError>)
        requires
            forall|tx: Self::TXMut| #[trigger] self.tx_mut_post(Ok(tx)) ==> f.requires((&tx,)),
        ensures
            scoped_post(|o| self.tx_mut_post(o), f, r),
    {
        let ghost opens = |o| self.tx_mut_post(o);
        let tx = match self.tx_mut() {
            Ok(tx) => tx,
            Err(e) => {
                assert(opens(Err(e)));
                return Err(e);
            },
        };
        let res = f(&tx);
        let ghost opened = tx;
        assert(opens(Ok(opened)) && f.ensures((&opened,), res));
        match tx.commit() {
            Ok(()) => Ok(res),
            Err(e) => Err(e),
        }
    }
}

impl<DB: Database> Sealed for Arc<DB> {

}

/// A shared handle opens transactions exactly as the handle it points to.
impl<DB: Database> Database for Arc<DB> {
    type TX = <DB as Database>::TX;

    type TXMut = <DB as Database>::TXMut;

    open spec fn tx_post(&self, r: Result<Self::TX, DatabaseError>) -> bool {
        (**self).tx_post(r)
    }

    open spec fn tx_mut_post(&self, r: Result<Self::TXMut, DatabaseError>) -> bool {
        (**self).tx_mut_post(r)
    }

    fn tx(&self) -> (r: Result<Self::TX, DatabaseError>) {
        <DB as Database>::tx(self)
    }

    fn tx_mut(&self) -> (r: Result<Self::TXMut, DatabaseError>) {
        <DB as Database>::tx_mut(self)
    }
}

impl<'a, DB: Database> Sealed for &'a DB {

}

/// A borrowed handle opens transactions exactly as the handle it borrows.
impl<'a, DB: Database> Database for &'a DB {
    type TX = <DB as Database>::TX;

    type TXMut = <DB as Database>::TXMut;

    open spec fn tx_post(&self, r: Result<Self::TX, DatabaseError>) -> bool {
        (**self).tx_post(r)
    }

    open spec fn tx_mut_post(&self, r: Result<Self::TXMut, DatabaseError>) -> bool {
        (**self).tx_mut_post(r)
    }

    fn tx(&self) -> (r: Result<Self::TX, DatabaseError>) {
        <DB as Database>::tx(self)
    }

    fn tx_mut(&self) -> (r: Result<Self::TXMut, DatabaseError>) {
        <DB as Database>::tx_mut(self)
    }
}

/// A shared handle behaves as the handle it wraps: every outcome of opening either kind of
/// transaction is possible through `w` exactly when it is possible on `db`, so `view` with
/// any body `f` and `update` with any body `g` may return a result `r` through `w` exactly
/// when they may return it on `db`. Since `Arc<DB>` is itself a `Database`, this holds of a wrapper of a wrapper.
pub proof fn lemma_shared_handle_delegates<
    DB: Database,
    T,
    F: FnOnce(&DB::TX) -> T,
    G: FnOnce(&DB::TXMut) -> T,
>(db: DB, w: Arc<DB>, f: F, g: G, r: Result<T, DatabaseError>)
    requires
        *w == db,
    ensures
        forall|o| #[trigger] w.tx_post(o) <==> db.tx_post(o),
        forall|o| #[trigger] w.tx_mut_post(o) <==> db.tx_mut_post(o),
        scoped_post(|o| w.tx_post(o), f, r) <==> scoped_post(|o| db.tx_post(o), f, r),
        scoped_post(|o| w.tx_mut_post(o), g, r) <==> scoped_post(|o| db.tx_mut_post(o), g, r),
{
    assert((|o| w.tx_post(o)) =~= (|o| db.tx_post(o)));
    assert((|o| w.tx_mut_post(o)) =~= (|o| db.tx_mut_post(o)));
}

/// A borrowed handle behaves as the handle it borrows: every outcome of opening either
/// kind of transaction is possible through `&db` exactly when it is possible on `db`, so
/// `view` with any body `f` and `update` with any body `g` may return a result `r` through
/// the reference exactly when they may return it on `db`.
pub proof fn lemma_borrowed_handle_delegates<
    DB: Database,
    T,
    F: FnOnce(&DB::TX) -> T,
    G: FnOnce(&DB::TXMut) -> T,
>(db: &DB, f: F, g: G, r: Result<T, DatabaseError>)
    ensures
        forall|o| #[trigger] <&DB as Database>::tx_post(&db, o) <==> db.tx_post(o),
        forall|o| #[trigger] <&DB as Database>::tx_mut_post(&db, o) <==> db.tx_mut_post(o),
        scoped_post(|o| <&DB as Database>::tx_post(&db, o), f, r) <==> scoped_post(
            |o| db.tx_post(o),
            f,
            r,
        ),
        scoped_post(|o| <&DB as Database>::tx_mut_post(&db, o), g, r) <==> scoped_post(
            |o| db.tx_mut_post(o),
            g,
            r,
        ),
{
    assert((|o| <&DB as Database>::tx_post(&db, o)) =~= (|o| db.tx_post(o)));
    assert((|o| <&DB as Database>::tx_mut_post(&db, o)) =~= (|o| db.tx_mut_post(o)));
}

} // verus!
