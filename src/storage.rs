use vstd::prelude::*;
use std::sync::{Arc, Mutex};
use rusqlite::Connection;
use crate::error::StorageError;
use crate::message::{Message, MessageRow};
use crate::sqlite::{error_text, execute, extended_code, guarded, lock_shared, open_file, SqlValue};

verus! {

/// The file used where no path is configured.
pub const DEFAULT_DB_PATH: &'static str = "whatsapp_messages.db";

/// Creates the message table unless it exists; safe to run on every start.
pub const SCHEMA_SQL: &'static str = "CREATE TABLE IF NOT EXISTS messages (
    id TEXT PRIMARY KEY,
    from_me INTEGER,
    timestamp TEXT,
    message_type TEXT,
    chat_jid TEXT,
    text TEXT
)";

/// Inserts one message; a second row with the same id is refused.
pub const INSERT_SQL: &'static str =
    "INSERT INTO messages (id, from_me, timestamp, message_type, chat_jid, text)
     VALUES (?1, ?2, ?3, ?4, ?5, ?6)";

/// SQLite's extended result code for a violated primary key.
pub const SQLITE_CONSTRAINT_PRIMARYKEY: i32 = 1555;

/// SQLite's extended result code for a violated unique constraint.
pub const SQLITE_CONSTRAINT_UNIQUE: i32 = 2067;

/// Whether a failure with this extended result code is a repeated id.
pub open spec fn is_duplicate_code(code: Option<i32>) -> bool {
    code == Some(SQLITE_CONSTRAINT_PRIMARYKEY) || code == Some(SQLITE_CONSTRAINT_UNIQUE)
}

/// The error reported for a failed insert of the message `id`, given the
/// failure's extended result code and its text: a repeated id where SQLite
/// reported a violated key, a database error otherwise.
pub fn insert_failure(id: &String, code: Option<i32>, text: String) -> (r: StorageError)
    ensures
        is_duplicate_code(code) ==> (r matches StorageError::DuplicateId(d) && d@ == id@),
        !is_duplicate_code(code) ==> r == StorageError::DatabaseError(text),
{
    let duplicate = match code {
        Some(c) => c == SQLITE_CONSTRAINT_PRIMARYKEY || c == SQLITE_CONSTRAINT_UNIQUE,
        None => false,
    };
    if duplicate {
        StorageError::DuplicateId(id.clone())
    } else {
        StorageError::DatabaseError(text)
    }
}

/// The database path for a configured value: the default where none is
/// configured, the value itself where it is not empty, and an error where
/// it is empty.
pub fn resolve_path(configured: Option<String>) -> (r: Result<String, StorageError>)
    ensures
        match configured {
            None => r matches Ok(p) && p@ == DEFAULT_DB_PATH@,
            Some(c) => if c@.len() == 0 {
                r matches Err(StorageError::ConfigurationError(_))
            } else {
                r == Ok::<String, StorageError>(c)
            },
        },
{
    match configured {
        None => Ok(String::from_str(DEFAULT_DB_PATH)),
        Some(c) => {
            if c.as_str().is_empty() {
                Err(StorageError::ConfigurationError(String::from_str("Database path cannot be empty")))
            } else {
                Ok(c)
            }
        },
    }
}

/// Message storage over one SQLite connection, shared by all clones of the
/// storage and used by one statement at a time.
#[derive(Clone)]
pub struct SQLiteStorage {
    db_path: String,
    connection: Option<Arc<Mutex<Connection>>>,
}

impl SQLiteStorage {
    /// The path of the database file.
    pub closed spec fn path(&self) -> Seq<char> {
        self.db_path@
    }

    /// Whether the database has been opened.
    pub closed spec fn is_connected(&self) -> bool {
        self.connection is Some
    }

    /// Storage for the configured path (see `resolve_path`), not yet opened.
    pub fn new(configured: Option<String>) -> (r: Result<Self, StorageError>)
        ensures
            match configured {
                None => r matches Ok(s) && s.path() == DEFAULT_DB_PATH@,
                Some(c) => if c@.len() == 0 {
                    r matches Err(StorageError::ConfigurationError(_))
                } else {
                    r matches Ok(s) && s.path() == c@
                },
            },
            r matches Ok(s) ==> !s.is_connected(),
    {
        match resolve_path(configured) {
            Ok(db_path) => Ok(SQLiteStorage { db_path, connection: None }),
            Err(e) => Err(e),
        }
    }

    /// The path of the database file.
    pub fn db_path(&self) -> (r: &String)
        ensures
            r@ == self.path(),
    {
        &self.db_path
    }

    /// Whether the database has been opened.
    pub fn connected(&self) -> (r: bool)
        ensures
            r == self.is_connected(),
    {
        self.connection.is_some()
    }

    /// Opens or creates the database file and its table, and from then on
    /// shares the connection with every clone made afterwards. The table is
    /// created before the connection is shared, so every failure on a
    /// non-empty path is a `ConnectionError`. An empty path is refused before
    /// the file system is touched. Storage that is open already keeps its one
    /// connection. On failure the storage is left as it was.
    pub fn connect(&mut self) -> (r: Result<(), StorageError>)
        ensures
            old(self).path().len() == 0 <==> (r matches Err(StorageError::ConfigurationError(_))),
            old(self).is_connected() && old(self).path().len() > 0 ==> r is Ok && *final(self)
                == *old(self),
            r is Ok ==> final(self).is_connected() && final(self).path() == old(self).path(),
            r is Err ==> *final(self) == *old(self),
            r matches Err(e) ==> (e is ConfigurationError || e is ConnectionError),
    {
        if self.db_path.as_str().is_empty() {
            return Err(
                StorageError::ConfigurationError(String::from_str("Database path cannot be empty")),
            );
        }
        if self.connection.is_some() {
            return Ok(());
        }
        let conn = match open_file(&self.db_path) {
            Ok(c) => c,
            Err(e) => {
                return Err(StorageError::ConnectionError(error_text(&e)));
            },
        };
        let no_params: Vec<SqlValue> = Vec::new();
        match execute(&conn, SCHEMA_SQL, &no_params) {
            Ok(_) => {},
            Err(e) => {
                return Err(StorageError::ConnectionError(error_text(&e)));
            },
        }
        let shared = Arc::new(Mutex::new(conn));
        self.connection = Some(shared);
        Ok(())
    }

    /// Inserts `msg` as one row (see `MessageRow::from_message`), holding the
    /// shared connection for the statement. It fails with `NotConnectedError`,
    /// writing nothing, exactly when `connect` has not succeeded; a message
    /// whose id is stored already fails with `DuplicateId` (see
    /// `insert_failure`).
    pub fn store_message(&self, msg: &Message) -> (r: Result<(), StorageError>)
        requires
            msg.wf(),
        ensures
            !self.is_connected() <==> r == Err::<(), StorageError>(StorageError::NotConnectedError),
            r matches Err(StorageError::DuplicateId(d)) ==> d@ == msg.id@,
            r matches Err(e) ==> (e is NotConnectedError || e is LockError || e is DuplicateId
                || e is DatabaseError),
    {
        let shared = match &self.connection {
            Some(c) => c,
            None => {
                return Err(StorageError::NotConnectedError);
            },
        };
        let row = MessageRow::from_message(msg);
        let params = row.params();
        let guard = match lock_shared(shared) {
            Ok(g) => g,
            Err(t) => {
                return Err(StorageError::LockError(t));
            },
        };
        match execute(guarded(&guard), INSERT_SQL, &params) {
            Ok(_) => Ok(()),
            Err(e) => Err(insert_failure(&msg.id, extended_code(&e), error_text(&e))),
        }
    }
}

} // verus!
