use vstd::prelude::*;
use std::sync::{Arc, Mutex, MutexGuard};
use rusqlite::Connection;

verus! {

#[verifier::external_type_specification]
#[verifier::external_body]
pub struct ExConnection(rusqlite::Connection);

#[verifier::external_type_specification]
#[verifier::external_body]
pub struct ExSqliteError(rusqlite::Error);

#[verifier::external_type_specification]
#[verifier::external_body]
#[verifier::reject_recursive_types(T)]
pub struct ExMutex<T: ?Sized>(std::sync::Mutex<T>);

#[verifier::external_type_specification]
#[verifier::external_body]
#[verifier::reject_recursive_types(T)]
pub struct ExMutexGuard<'a, T: ?Sized + 'a>(std::sync::MutexGuard<'a, T>);

pub assume_specification<T>[ std::sync::Mutex::<T>::new ](t: T) -> std::sync::Mutex<T>;

/// A value bound to a statement parameter.
pub enum SqlValue {
    Integer(i64),
    Text(String),
    Null,
}

/// Relies on rusqlite::Connection::open: opens or creates the database file.
#[verifier::external_body]
pub(crate) fn open_file(path: &String) -> (r: Result<Connection, rusqlite::Error>) {
    Connection::open(path)
}

/// Relies on std::sync::Mutex::lock: waits for exclusive access; fails, with
/// the poison error's text, where a holder panicked.
#[verifier::external_body]
pub(crate) fn lock_shared(shared: &Arc<Mutex<Connection>>) -> (r: Result<
    MutexGuard<'_, Connection>,
    String,
>) {
    shared.lock().map_err(|e| e.to_string())
}

/// Relies on `Deref` for std::sync::MutexGuard: the value that the held lock
/// guards.
#[verifier::external_body]
pub(crate) fn guarded<'a, 'b>(guard: &'a MutexGuard<'b, Connection>) -> (r: &'a Connection) {
    &**guard
}

/// Relies on rusqlite::Connection::execute: runs one statement with its
/// parameters bound in order.
#[verifier::external_body]
pub(crate) fn execute(conn: &Connection, sql: &str, params: &Vec<SqlValue>) -> (r: Result<
    usize,
    rusqlite::Error,
>) {
    let values = params.iter().map(|p| match p {
        SqlValue::Integer(i) => rusqlite::types::Value::Integer(*i),
        SqlValue::Text(t) => rusqlite::types::Value::Text(t.clone()),
        SqlValue::Null => rusqlite::types::Value::Null,
    });
    conn.execute(sql, rusqlite::params_from_iter(values))
}

/// Relies on rusqlite::Error::sqlite_error: the extended result code of a
/// failure that SQLite itself reported, and `None` for any other failure.
#[verifier::external_body]
pub(crate) fn extended_code(e: &rusqlite::Error) -> (r: Option<i32>) {
    e.sqlite_error().map(|f| f.extended_code)
}

/// Relies on rusqlite::Error's `Display`: a readable account of the failure.
#[verifier::external_body]
pub(crate) fn error_text(e: &rusqlite::Error) -> (r: String) {
    e.to_string()
}

} // verus!
