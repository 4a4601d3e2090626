use vstd::prelude::*;

verus! {

/// Why a storage operation failed.
#[derive(Clone, Debug, PartialEq, Eq)]
pub enum StorageError {
    /// The configured database path is empty.
    ConfigurationError(String),
    /// The database file or its table could not be opened or created.
    ConnectionError(String),
    /// A message was stored before the database was opened.
    NotConnectedError,
    /// Exclusive access to the shared connection could not be had.
    LockError(String),
    /// A message with this id is stored already.
    DuplicateId(String),
    /// Any other failure of the database while running a statement.
    DatabaseError(String),
}

} // verus!
