use vstd::prelude::*;

verus! {

/// Why the engine could not open a transaction.
#[derive(Clone, Copy, Debug, PartialEq, Eq, Structural)]
pub enum OpenFailure {
    /// No transaction slot is free (reader table full, writer already active).
    NoSlot,
    /// A read-write transaction was asked of a handle opened without write access.
    ReadOnly,
}

/// The failures a transaction can meet: it could not be opened, or not committed.
#[derive(Clone, Copy, Debug, PartialEq, Eq, Structural)]
pub enum DatabaseError {
    /// The transaction could not be opened.
    Open(OpenFailure),
    /// The transaction could not be committed; the engine's error code.
    Commit(i32),
}

impl DatabaseError {
    /// Whether the transaction failed to open (as opposed to failing to commit).
    pub fn is_open_failure(&self) -> (r: bool)
        ensures
            r == (*self is Open),
    {
        match self {
            DatabaseError::Open(_) => true,
            DatabaseError::Commit(_) => false,
        }
    }
}

} // verus!
