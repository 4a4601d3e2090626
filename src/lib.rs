//! Durable storage of received chat messages in a single-table SQLite file,
//! behind one shared, mutually excluded connection.
mod error;
mod message;
mod router;
mod sqlite;
mod storage;
mod text;

pub use error::StorageError;
pub use message::{
    Message, MessageModel, MessageRow, MessageType, RowModel, Timestamp, days_in_month,
    is_leap_year, lemma_row_round_trip, lemma_timestamp_round_trip, lemma_type_name_round_trip,
    message_of_row, month_length, row_of, text_view, timestamp_of_text, type_of_name,
};
pub use router::{Event, Route, keeps, route_event, should_store};
pub use sqlite::SqlValue;
pub use storage::{
    DEFAULT_DB_PATH, INSERT_SQL, SCHEMA_SQL, SQLITE_CONSTRAINT_PRIMARYKEY, SQLITE_CONSTRAINT_UNIQUE,
    SQLiteStorage, insert_failure, is_duplicate_code, resolve_path,
};
pub use text::{
    all_digits, digit_char, digit_value, is_digit, lemma_padded_value, padded, pow10, push_padded,
    read_number, value_of,
};
