//! The catalogue's tables, indexes and schema version.

use vstd::prelude::*;
use crate::sqlite::{
    SqlValue, SqlValueView, DbError, ColumnKind, values_view, row_error, int_at, execute, query,
    check_row, get_int, column_error,
};
use crate::decode::rows_view;

verus! {

/// The schema version this library writes and expects.
pub const SCHEMA_VERSION: i32 = 1;

/// The statement enforcing foreign keys.
pub open spec fn foreign_keys_sql() -> Seq<char> {
    "PRAGMA foreign_keys = ON"@
}

/// The statement enforcing foreign keys.
pub fn foreign_keys_statement() -> (r: &'static str)
    ensures
        r@ == foreign_keys_sql(),
{
    "PRAGMA foreign_keys = ON"
}

/// The statement creating the schema version table.
pub open spec fn schema_version_table_sql() -> Seq<char> {
    "CREATE TABLE IF NOT EXISTS schema_version (version INTEGER PRIMARY KEY)"@
}

/// The statement creating the schema version table.
pub fn schema_version_table_statement() -> (r: &'static str)
    ensures
        r@ == schema_version_table_sql(),
{
    "CREATE TABLE IF NOT EXISTS schema_version (version INTEGER PRIMARY KEY)"
}

/// The statement recording the schema version.
pub open spec fn record_version_sql() -> Seq<char> {
    "INSERT OR REPLACE INTO schema_version (version) VALUES (?1)"@
}

/// The statement recording the schema version.
pub fn record_version_statement() -> (r: &'static str)
    ensures
        r@ == record_version_sql(),
{
    "INSERT OR REPLACE INTO schema_version (version) VALUES (?1)"
}

/// The statement creating the media_files table.
pub open spec fn media_files_table_sql() -> Seq<char> {
    "CREATE TABLE IF NOT EXISTS media_files (
            id INTEGER PRIMARY KEY AUTOINCREMENT,
            file_path TEXT UNIQUE NOT NULL,
            file_type TEXT NOT NULL CHECK(file_type IN ('image', 'video')),
            file_size INTEGER NOT NULL,
            width INTEGER,
            height INTEGER,
            duration INTEGER,
            created_at INTEGER NOT NULL,
            modified_at INTEGER NOT NULL,
            taken_at INTEGER,
            device TEXT,
            gps_lat REAL,
            gps_lon REAL,
            checksum TEXT,
            thumbnail_path TEXT,
            is_deleted INTEGER DEFAULT 0
        )"@
}

/// The statement creating the media_files table.
pub fn media_files_table_statement() -> (r: &'static str)
    ensures
        r@ == media_files_table_sql(),
{
    "CREATE TABLE IF NOT EXISTS media_files (
            id INTEGER PRIMARY KEY AUTOINCREMENT,
            file_path TEXT UNIQUE NOT NULL,
            file_type TEXT NOT NULL CHECK(file_type IN ('image', 'video')),
            file_size INTEGER NOT NULL,
            width INTEGER,
            height INTEGER,
            duration INTEGER,
            created_at INTEGER NOT NULL,
            modified_at INTEGER NOT NULL,
            taken_at INTEGER,
            device TEXT,
            gps_lat REAL,
            gps_lon REAL,
            checksum TEXT,
            thumbnail_path TEXT,
            is_deleted INTEGER DEFAULT 0
        )"
}

/// The statement creating the tags table.
pub open spec fn tags_table_sql() -> Seq<char> {
    "CREATE TABLE IF NOT EXISTS tags (
            id INTEGER PRIMARY KEY AUTOINCREMENT,
            name TEXT UNIQUE NOT NULL,
            parent_id INTEGER REFERENCES tags(id),
            color TEXT,
            created_at INTEGER NOT NULL DEFAULT (strftime('%s', 'now'))
        )"@
}

/// The statement creating the tags table.
pub fn tags_table_statement() -> (r: &'static str)
    ensures
        r@ == tags_table_sql(),
{
    "CREATE TABLE IF NOT EXISTS tags (
            id INTEGER PRIMARY KEY AUTOINCREMENT,
            name TEXT UNIQUE NOT NULL,
            parent_id INTEGER REFERENCES tags(id),
            color TEXT,
            created_at INTEGER NOT NULL DEFAULT (strftime('%s', 'now'))
        )"
}

/// The statement creating the media_tags table.
pub open spec fn media_tags_table_sql() -> Seq<char> {
    "CREATE TABLE IF NOT EXISTS media_tags (
            media_id INTEGER NOT NULL REFERENCES media_files(id) ON DELETE CASCADE,
            tag_id INTEGER NOT NULL REFERENCES tags(id) ON DELETE CASCADE,
            created_at INTEGER NOT NULL DEFAULT (strftime('%s', 'now')),
            PRIMARY KEY (media_id, tag_id)
        )"@
}

/// The statement creating the media_tags table.
pub fn media_tags_table_statement() -> (r: &'static str)
    ensures
        r@ == media_tags_table_sql(),
{
    "CREATE TABLE IF NOT EXISTS media_tags (
            media_id INTEGER NOT NULL REFERENCES media_files(id) ON DELETE CASCADE,
            tag_id INTEGER NOT NULL REFERENCES tags(id) ON DELETE CASCADE,
            created_at INTEGER NOT NULL DEFAULT (strftime('%s', 'now')),
            PRIMARY KEY (media_id, tag_id)
        )"
}

/// The statement creating the albums table.
pub open spec fn albums_table_sql() -> Seq<char> {
    "CREATE TABLE IF NOT EXISTS albums (
            id INTEGER PRIMARY KEY AUTOINCREMENT,
            name TEXT NOT NULL,
            description TEXT,
            cover_media_id INTEGER REFERENCES media_files(id),
            created_at INTEGER NOT NULL DEFAULT (strftime('%s', 'now'))
        )"@
}

/// The statement creating the albums table.
pub fn albums_table_statement() -> (r: &'static str)
    ensures
        r@ == albums_table_sql(),
{
    "CREATE TABLE IF NOT EXISTS albums (
            id INTEGER PRIMARY KEY AUTOINCREMENT,
            name TEXT NOT NULL,
            description TEXT,
            cover_media_id INTEGER REFERENCES media_files(id),
            created_at INTEGER NOT NULL DEFAULT (strftime('%s', 'now'))
        )"
}

/// The statement creating the album_media table.
pub open spec fn album_media_table_sql() -> Seq<char> {
    "CREATE TABLE IF NOT EXISTS album_media (
            album_id INTEGER NOT NULL REFERENCES albums(id) ON DELETE CASCADE,
            media_id INTEGER NOT NULL REFERENCES media_files(id) ON DELETE CASCADE,
            position INTEGER NOT NULL DEFAULT 0,
            PRIMARY KEY (album_id, media_id)
        )"@
}

/// The statement creating the album_media table.
pub fn album_media_table_statement() -> (r: &'static str)
    ensures
        r@ == album_media_table_sql(),
{
    "CREATE TABLE IF NOT EXISTS album_media (
            album_id INTEGER NOT NULL REFERENCES albums(id) ON DELETE CASCADE,
            media_id INTEGER NOT NULL REFERENCES media_files(id) ON DELETE CASCADE,
            position INTEGER NOT NULL DEFAULT 0,
            PRIMARY KEY (album_id, media_id)
        )"
}

/// The statement reading the schema version.
pub open spec fn version_query_sql() -> Seq<char> {
    "SELECT version FROM schema_version LIMIT 1"@
}

/// The statement reading the schema version.
pub fn version_query_statement() -> (r: &'static str)
    ensures
        r@ == version_query_sql(),
{
    "SELECT version FROM schema_version LIMIT 1"
}

/// The statements creating the lookup indexes, in order.
pub open spec fn index_sqls() -> Seq<Seq<char>> {
    seq![
        "CREATE INDEX IF NOT EXISTS idx_media_type ON media_files(file_type)"@,
        "CREATE INDEX IF NOT EXISTS idx_media_taken_at ON media_files(taken_at)"@,
        "CREATE INDEX IF NOT EXISTS idx_media_checksum ON media_files(checksum)"@,
        "CREATE INDEX IF NOT EXISTS idx_media_created_at ON media_files(created_at)"@,
        "CREATE INDEX IF NOT EXISTS idx_media_is_deleted ON media_files(is_deleted)"@,
        "CREATE INDEX IF NOT EXISTS idx_tags_parent ON tags(parent_id)"@,
        "CREATE INDEX IF NOT EXISTS idx_media_tags_media ON media_tags(media_id)"@,
        "CREATE INDEX IF NOT EXISTS idx_media_tags_tag ON media_tags(tag_id)"@,
        "CREATE INDEX IF NOT EXISTS idx_album_media_album ON album_media(album_id)"@,
        "CREATE INDEX IF NOT EXISTS idx_album_media_media ON album_media(media_id)"@,
    ]
}

/// The statements creating the lookup indexes, in order.
pub fn index_statements() -> (r: [&'static str; 10])
    ensures
        r@.map_values(|q: &str| q@) == index_sqls(),
{
    let r = [
        "CREATE INDEX IF NOT EXISTS idx_media_type ON media_files(file_type)",
        "CREATE INDEX IF NOT EXISTS idx_media_taken_at ON media_files(taken_at)",
        "CREATE INDEX IF NOT EXISTS idx_media_checksum ON media_files(checksum)",
        "CREATE INDEX IF NOT EXISTS idx_media_created_at ON media_files(created_at)",
        "CREATE INDEX IF NOT EXISTS idx_media_is_deleted ON media_files(is_deleted)",
        "CREATE INDEX IF NOT EXISTS idx_tags_parent ON tags(parent_id)",
        "CREATE INDEX IF NOT EXISTS idx_media_tags_media ON media_tags(media_id)",
        "CREATE INDEX IF NOT EXISTS idx_media_tags_tag ON media_tags(tag_id)",
        "CREATE INDEX IF NOT EXISTS idx_album_media_album ON album_media(album_id)",
        "CREATE INDEX IF NOT EXISTS idx_album_media_media ON album_media(media_id)",
    ];
    assert(r@.map_values(|q: &str| q@) =~= index_sqls());
    r
}

/// Creates every table and index that does not exist yet and records the
/// schema version.
pub fn init_db(conn: &rusqlite::Connection) -> (r: Result<(), DbError>)
    ensures
        r matches Err(e) ==> e is Sqlite,
{
    let none: Vec<SqlValue> = Vec::new();
    execute(conn, foreign_keys_statement(), &none)?;
    create_media_files_table(conn)?;
    create_tags_table(conn)?;
    create_media_tags_table(conn)?;
    create_albums_table(conn)?;
    create_album_media_table(conn)?;
    create_indexes(conn)?;
    execute(conn, schema_version_table_statement(), &none)?;
    let params = vec![SqlValue::Integer(SCHEMA_VERSION as i64)];
    execute(conn, record_version_statement(), &params)?;
    Ok(())
}

fn create_media_files_table(conn: &rusqlite::Connection) -> (r: Result<(), DbError>)
    ensures
        r matches Err(e) ==> e is Sqlite,
{
    let none: Vec<SqlValue> = Vec::new();
    execute(
        conn,
        media_files_table_statement(),
        &none,
    )?;
    Ok(())
}

fn create_tags_table(conn: &rusqlite::Connection) -> (r: Result<(), DbError>)
    ensures
        r matches Err(e) ==> e is Sqlite,
{
    let none: Vec<SqlValue> = Vec::new();
    execute(
        conn,
        tags_table_statement(),
        &none,
    )?;
    Ok(())
}

fn create_media_tags_table(conn: &rusqlite::Connection) -> (r: Result<(), DbError>)
    ensures
        r matches Err(e) ==> e is Sqlite,
{
    let none: Vec<SqlValue> = Vec::new();
    execute(
        conn,
        media_tags_table_statement(),
        &none,
    )?;
    Ok(())
}

fn create_albums_table(conn: &rusqlite::Connection) -> (r: Result<(), DbError>)
    ensures
        r matches Err(e) ==> e is Sqlite,
{
    let none: Vec<SqlValue> = Vec::new();
    execute(
        conn,
        albums_table_statement(),
        &none,
    )?;
    Ok(())
}

fn create_album_media_table(conn: &rusqlite::Connection) -> (r: Result<(), DbError>)
    ensures
        r matches Err(e) ==> e is Sqlite,
{
    let none: Vec<SqlValue> = Vec::new();
    execute(
        conn,
        album_media_table_statement(),
        &none,
    )?;
    Ok(())
}

/// Creates the lookup indexes, in order, stopping at the first failure.
fn create_indexes(conn: &rusqlite::Connection) -> (r: Result<(), DbError>)
    ensures
        r matches Err(e) ==> e is Sqlite,
{
    let indexes = index_statements();
    let none: Vec<SqlValue> = Vec::new();
    let mut i: usize = 0;
    while i < 10
        invariant
            i <= 10,
        decreases 10 - i,
    {
        execute(conn, indexes[i], &none)?;
        i = i + 1;
    }
    Ok(())
}

/// The version the first row of the schema version query reads as.
pub open spec fn spec_version_from_row(row: Seq<SqlValueView>) -> Result<i32, DbError> {
    match row_error(row, seq![ColumnKind::I32]) {
        Some(e) => Err(e),
        None => Ok(int_at(row, 0) as i32),
    }
}

/// The schema version the outcome of the version query gives: the version
/// read from its first row, or 0 when the query failed, gave no row or its
/// row does not read as a version.
pub open spec fn spec_schema_version(res: Result<Seq<Seq<SqlValueView>>, DbError>) -> i32 {
    match res {
        Err(_) => 0,
        Ok(rows) => if rows.len() == 0 {
            0
        } else {
            match spec_version_from_row(rows[0]) {
                Ok(v) => v,
                Err(_) => 0,
            }
        },
    }
}

pub open spec fn rows_result_view(res: Result<Vec<Vec<SqlValue>>, DbError>) -> Result<Seq<Seq<SqlValueView>>, DbError> {
    match res {
        Ok(rows) => Ok(rows_view(rows@)),
        Err(e) => Err(e),
    }
}

/// The schema version the outcome of the version query gives.
pub fn version_from_query(res: &Result<Vec<Vec<SqlValue>>, DbError>) -> (r: i32)
    ensures
        r == spec_schema_version(rows_result_view(*res)),
{
    match res {
        Err(_) => 0,
        Ok(rows) => {
            if rows.len() == 0 {
                0
            } else {
                let row = &rows[0];
                assert(rows_view(rows@)[0] == values_view(row@));
                let kinds = vec![ColumnKind::I32];
                assert(kinds@ =~= seq![ColumnKind::I32]);
                match check_row(row, &kinds) {
                    Some(_) => 0,
                    None => {
                        proof {
                            crate::sqlite::lemma_row_error_from(values_view(row@), kinds@, 0);
                            assert(values_view(row@)[0] == row@[0]@);
                            if column_error(values_view(row@), 0, kinds@[0]) is Some {
                                assert(row_error(values_view(row@), kinds@) is Some);
                            }
                        }
                        get_int(row, 0) as i32
                    },
                }
            }
        },
    }
}

/// The recorded schema version; 0 when none can be read.
pub fn get_schema_version(conn: &rusqlite::Connection) -> (r: Result<i32, DbError>)
    ensures
        r is Ok,
{
    let none: Vec<SqlValue> = Vec::new();
    let res = query(conn, version_query_statement(), &none);
    Ok(version_from_query(&res))
}

/// Whether a catalogue at this schema version needs migrating.
pub fn version_needs_migration(version: i32) -> (r: bool)
    ensures
        r == (version < SCHEMA_VERSION),
{
    version < SCHEMA_VERSION
}

/// Whether the outcome of the version query means the catalogue needs
/// migrating: the version it gives (0 when none can be read) is older than
/// the one this library writes.
pub fn migration_needed(res: &Result<Vec<Vec<SqlValue>>, DbError>) -> (r: bool)
    ensures
        r == (spec_schema_version(rows_result_view(*res)) < SCHEMA_VERSION),
{
    version_needs_migration(version_from_query(res))
}

/// Whether the catalogue needs migrating; reading the version never fails.
/// The version query of `version_query_statement` runs, and its outcome is
/// judged by `migration_needed`.
pub fn needs_migration(conn: &rusqlite::Connection) -> (r: Result<bool, DbError>)
    ensures
        r is Ok,
{
    let none: Vec<SqlValue> = Vec::new();
    let res = query(conn, version_query_statement(), &none);
    Ok(migration_needed(&res))
}

} // verus!
