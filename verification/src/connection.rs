//! The catalogue database: opening it and whole-database operations.

use vstd::prelude::*;
use crate::models::DatabaseStats;
use crate::decode::{reply_error, reads_first, int_decoder};
use crate::sqlite::{
    DbError, SqlValue, sqlite_open, sqlite_open_in_memory, sqlite_path, execute, execute_batch,
};

verus! {

/// The statement enforcing foreign keys.
pub open spec fn foreign_keys_pragma_sql() -> Seq<char> {
    "PRAGMA foreign_keys = ON;"@
}

/// The statement enforcing foreign keys.
pub fn foreign_keys_pragma_statement() -> (r: &'static str)
    ensures
        r@ == foreign_keys_pragma_sql(),
{
    "PRAGMA foreign_keys = ON;"
}

/// The statement turning on write-ahead logging.
pub open spec fn wal_pragma_sql() -> Seq<char> {
    "PRAGMA journal_mode = WAL;"@
}

/// The statement turning on write-ahead logging.
pub fn wal_pragma_statement() -> (r: &'static str)
    ensures
        r@ == wal_pragma_sql(),
{
    "PRAGMA journal_mode = WAL;"
}

/// The statement setting a five second busy timeout.
pub open spec fn busy_timeout_pragma_sql() -> Seq<char> {
    "PRAGMA busy_timeout = 5000;"@
}

/// The statement setting a five second busy timeout.
pub fn busy_timeout_pragma_statement() -> (r: &'static str)
    ensures
        r@ == busy_timeout_pragma_sql(),
{
    "PRAGMA busy_timeout = 5000;"
}

/// The statement rebuilding the database file.
pub open spec fn vacuum_sql() -> Seq<char> {
    "VACUUM"@
}

/// The statement rebuilding the database file.
pub fn vacuum_statement() -> (r: &'static str)
    ensures
        r@ == vacuum_sql(),
{
    "VACUUM"
}

/// The catalogue database. Callers that share it between threads put it
/// behind a lock.
pub struct Database {
    conn: rusqlite::Connection,
}

impl Database {
    /// The connection the database holds.
    pub closed spec fn connection(&self) -> rusqlite::Connection {
        self.conn
    }

    /// Opens or creates the database file, with foreign keys enforced,
    /// write-ahead logging and a five second busy timeout.
    pub fn open(path: &str) -> (r: Result<Database, DbError>)
        ensures
            r matches Err(e) ==> e is Sqlite,
    {
        let conn = match sqlite_open(path) {
            Ok(c) => c,
            Err(e) => return Err(DbError::Sqlite(e)),
        };
        execute_batch(&conn, foreign_keys_pragma_statement())?;
        execute_batch(&conn, wal_pragma_statement())?;
        execute_batch(&conn, busy_timeout_pragma_statement())?;
        Ok(Database { conn })
    }

    /// Opens a database held in memory, with foreign keys enforced.
    pub fn open_in_memory() -> (r: Result<Database, DbError>)
        ensures
            r matches Err(e) ==> e is Sqlite,
    {
        let conn = match sqlite_open_in_memory() {
            Ok(c) => c,
            Err(e) => return Err(DbError::Sqlite(e)),
        };
        execute_batch(&conn, foreign_keys_pragma_statement())?;
        Ok(Database { conn })
    }

    /// Creates the tables and indexes the catalogue needs.
    pub fn init(&self) -> (r: Result<(), DbError>)
        ensures
            r matches Err(e) ==> e is Sqlite,
    {
        crate::schema::init_db(&self.conn)
    }

    /// The connection to run catalogue operations on.
    pub fn get_conn(&self) -> (r: Result<&rusqlite::Connection, DbError>)
        ensures
            r matches Ok(c) && *c == self.connection(),
    {
        Ok(&self.conn)
    }

    /// Whether the catalogue needs migrating.
    pub fn needs_migration(&self) -> (r: Result<bool, DbError>)
        ensures
            r is Ok,
    {
        crate::schema::needs_migration(&self.conn)
    }

    /// The database file's path: empty for a database in memory.
    pub fn path(&self) -> (r: Option<String>) {
        sqlite_path(&self.conn)
    }

    /// Rebuilds the database file to reclaim space.
    pub fn vacuum(&self) -> (r: Result<(), DbError>)
        ensures
            r matches Err(e) ==> e is Sqlite,
    {
        let none: Vec<SqlValue> = Vec::new();
        execute(&self.conn, vacuum_statement(), &none)?;
        Ok(())
    }

    /// Counts of the catalogue.
    pub fn stats(&self) -> (r: Result<DatabaseStats, DbError>)
        ensures
            r matches Err(e) ==> e is Sqlite || reply_error(e, reads_first(int_decoder())),
    {
        crate::repository::get_stats(&self.conn)
    }
}

} // verus!
