//! Values exchanged with the SQLite catalogue, the rules by which a stored
//! value reads back as a Rust value, and the calls into `rusqlite`.

use vstd::prelude::*;
use rusqlite::types::Value;
use crate::text::{spec_decimal_int, decimal_i64, opt_view};

verus! {

#[verifier::external_type_specification]
#[verifier::external_body]
pub struct ExConnection(rusqlite::Connection);

#[verifier::external_type_specification]
#[verifier::external_body]
pub struct ExSqliteError(rusqlite::Error);

#[verifier::external_type_specification]
#[verifier::external_body]
pub struct ExSqliteValue(rusqlite::types::Value);

#[verifier::external_type_specification]
#[verifier::external_body]
pub struct ExStatement<'conn>(rusqlite::Statement<'conn>);

#[verifier::external_type_specification]
#[verifier::external_body]
pub struct ExRow<'stmt>(rusqlite::Row<'stmt>);

/// One SQL value. A real number is held as its decimal text.
#[derive(Debug, Clone)]
pub enum SqlValue {
    Null,
    Integer(i64),
    Real(String),
    Text(String),
    Blob(Vec<u8>),
}

/// The mathematical form of an SQL value.
pub enum SqlValueView {
    Null,
    Integer(i64),
    Real(Seq<char>),
    Text(Seq<char>),
    Blob(Seq<u8>),
}

impl View for SqlValue {
    type V = SqlValueView;

    open spec fn view(&self) -> SqlValueView {
        match self {
            SqlValue::Null => SqlValueView::Null,
            SqlValue::Integer(i) => SqlValueView::Integer(*i),
            SqlValue::Real(t) => SqlValueView::Real(t@),
            SqlValue::Text(t) => SqlValueView::Text(t@),
            SqlValue::Blob(b) => SqlValueView::Blob(b@),
        }
    }
}

/// The mathematical form of a row or of a parameter list.
pub open spec fn values_view(vs: Seq<SqlValue>) -> Seq<SqlValueView> {
    vs.map_values(|v: SqlValue| v@)
}

/// Errors of catalogue operations.
#[derive(Debug)]
pub enum DbError {
    /// The SQLite engine refused or failed the statement.
    Sqlite(rusqlite::Error),
    /// A query that must yield a row yielded none.
    QueryReturnedNoRows,
    /// A column was read beyond the row's end.
    InvalidColumnIndex(usize),
    /// A column holds a value of another type than the one read.
    InvalidColumnType(usize),
    /// Deleting a tag tree took more steps than a `u64` counts; only a cycle
    /// of parent tags makes the deletion run that long.
    TreeNotFinished,
    /// An integer column holds a value out of the range of the type read.
    IntegralValueOutOfRange(usize, i64),
}

/// How a column is read, following `rusqlite`'s conversions: `i64` from an
/// integer; `i32` from an integer in range; `String` from text; `f64` from an
/// integer or a real; `Option<_>` also from NULL.
pub enum ColumnKind {
    I64,
    OptI64,
    I32,
    OptI32,
    Text,
    OptText,
    OptReal,
}

/// The error that reading column `i` of `row` as `k` gives, if any.
pub open spec fn column_error(row: Seq<SqlValueView>, i: int, k: ColumnKind) -> Option<DbError> {
    if i < 0 || i >= row.len() {
        Some(DbError::InvalidColumnIndex(i as usize))
    } else {
        match (k, row[i]) {
            (ColumnKind::I64, SqlValueView::Integer(_)) => None,
            (ColumnKind::OptI64, SqlValueView::Integer(_)) => None,
            (ColumnKind::OptI64, SqlValueView::Null) => None,
            (ColumnKind::I32, SqlValueView::Integer(v)) => if i32::MIN <= v <= i32::MAX {
                None
            } else {
                Some(DbError::IntegralValueOutOfRange(i as usize, v))
            },
            (ColumnKind::OptI32, SqlValueView::Null) => None,
            (ColumnKind::OptI32, SqlValueView::Integer(v)) => if i32::MIN <= v <= i32::MAX {
                None
            } else {
                Some(DbError::IntegralValueOutOfRange(i as usize, v))
            },
            (ColumnKind::Text, SqlValueView::Text(_)) => None,
            (ColumnKind::OptText, SqlValueView::Text(_)) => None,
            (ColumnKind::OptText, SqlValueView::Null) => None,
            (ColumnKind::OptReal, SqlValueView::Null) => None,
            (ColumnKind::OptReal, SqlValueView::Integer(_)) => None,
            (ColumnKind::OptReal, SqlValueView::Real(_)) => None,
            _ => Some(DbError::InvalidColumnType(i as usize)),
        }
    }
}

/// The first error met reading the columns of `row` from `i` on, in order.
pub open spec fn row_error_from(row: Seq<SqlValueView>, kinds: Seq<ColumnKind>, i: int) -> Option<DbError>
    decreases kinds.len() - i,
{
    if i < 0 || i >= kinds.len() {
        None
    } else if column_error(row, i, kinds[i]) is Some {
        column_error(row, i, kinds[i])
    } else {
        row_error_from(row, kinds, i + 1)
    }
}

/// The first error met reading the columns of `row` in order.
pub open spec fn row_error(row: Seq<SqlValueView>, kinds: Seq<ColumnKind>) -> Option<DbError> {
    row_error_from(row, kinds, 0)
}

pub proof fn lemma_row_error_from(row: Seq<SqlValueView>, kinds: Seq<ColumnKind>, i: int)
    requires
        0 <= i <= kinds.len(),
        forall|j: int| i <= j < kinds.len() ==> column_error(row, j, #[trigger] kinds[j]) is None,
    ensures
        row_error_from(row, kinds, i) is None,
    decreases kinds.len() - i,
{
    if i < kinds.len() {
        lemma_row_error_from(row, kinds, i + 1);
    }
}

proof fn lemma_row_error_first(row: Seq<SqlValueView>, kinds: Seq<ColumnKind>, i: int, k: int)
    requires
        0 <= i <= k < kinds.len(),
        forall|j: int| i <= j < k ==> column_error(row, j, #[trigger] kinds[j]) is None,
        column_error(row, k, kinds[k]) is Some,
    ensures
        row_error_from(row, kinds, i) == column_error(row, k, kinds[k]),
    decreases k - i,
{
    if i < k {
        lemma_row_error_first(row, kinds, i + 1, k);
    }
}

/// The integer stored in a column known to hold one.
pub open spec fn int_at(row: Seq<SqlValueView>, i: int) -> i64 {
    match row[i] {
        SqlValueView::Integer(v) => v,
        _ => 0,
    }
}

/// The integer or NULL stored in a column.
pub open spec fn opt_int_at(row: Seq<SqlValueView>, i: int) -> Option<i64> {
    match row[i] {
        SqlValueView::Integer(v) => Some(v),
        _ => None,
    }
}

pub open spec fn opt_i32_at(row: Seq<SqlValueView>, i: int) -> Option<i32> {
    match row[i] {
        SqlValueView::Integer(v) => Some(v as i32),
        _ => None,
    }
}

/// The text stored in a column known to hold one.
pub open spec fn text_at(row: Seq<SqlValueView>, i: int) -> Seq<char> {
    match row[i] {
        SqlValueView::Text(t) => t,
        _ => Seq::empty(),
    }
}

pub open spec fn opt_text_at(row: Seq<SqlValueView>, i: int) -> Option<Seq<char>> {
    match row[i] {
        SqlValueView::Text(t) => Some(t),
        _ => None,
    }
}

/// A real column read as decimal text; an integer reads as its decimal text.
pub open spec fn opt_real_at(row: Seq<SqlValueView>, i: int) -> Option<Seq<char>> {
    match row[i] {
        SqlValueView::Real(t) => Some(t),
        SqlValueView::Integer(v) => Some(spec_decimal_int(v as int)),
        _ => None,
    }
}

/// The first error met reading `row`'s columns as `kinds` says, in order.
pub fn check_row(row: &Vec<SqlValue>, kinds: &Vec<ColumnKind>) -> (r: Option<DbError>)
    ensures
        r == row_error(values_view(row@), kinds@),
{
    let ghost rv = values_view(row@);
    let mut i: usize = 0;
    while i < kinds.len()
        invariant
            i <= kinds.len(),
            rv == values_view(row@),
            forall|j: int| 0 <= j < i ==> column_error(rv, j, #[trigger] kinds@[j]) is None,
        decreases kinds.len() - i,
    {
        let e = column_check(row, i, &kinds[i]);
        if e.is_some() {
            proof {
                lemma_row_error_first(rv, kinds@, 0, i as int);
            }
            return e;
        }
        i = i + 1;
    }
    proof {
        lemma_row_error_from(rv, kinds@, 0);
    }
    None
}

/// The error that reading column `i` as `k` gives, if any.
fn column_check(row: &Vec<SqlValue>, i: usize, k: &ColumnKind) -> (r: Option<DbError>)
    ensures
        r == column_error(values_view(row@), i as int, *k),
{
    if i >= row.len() {
        return Some(DbError::InvalidColumnIndex(i));
    }
    let ghost rv = values_view(row@);
    assert(rv[i as int] == row@[i as int]@);
    match (k, &row[i]) {
        (ColumnKind::I64, SqlValue::Integer(_)) => None,
        (ColumnKind::OptI64, SqlValue::Integer(_)) => None,
        (ColumnKind::OptI64, SqlValue::Null) => None,
        (ColumnKind::I32, SqlValue::Integer(v)) => if i32::MIN as i64 <= *v && *v <= i32::MAX as i64 {
            None
        } else {
            Some(DbError::IntegralValueOutOfRange(i, *v))
        },
        (ColumnKind::OptI32, SqlValue::Null) => None,
        (ColumnKind::OptI32, SqlValue::Integer(v)) => if i32::MIN as i64 <= *v && *v <= i32::MAX as i64 {
            None
        } else {
            Some(DbError::IntegralValueOutOfRange(i, *v))
        },
        (ColumnKind::Text, SqlValue::Text(_)) => None,
        (ColumnKind::OptText, SqlValue::Text(_)) => None,
        (ColumnKind::OptText, SqlValue::Null) => None,
        (ColumnKind::OptReal, SqlValue::Null) => None,
        (ColumnKind::OptReal, SqlValue::Integer(_)) => None,
        (ColumnKind::OptReal, SqlValue::Real(_)) => None,
        _ => Some(DbError::InvalidColumnType(i)),
    }
}

/// Reads an integer column that holds one.
pub fn get_int(row: &Vec<SqlValue>, i: usize) -> (r: i64)
    requires
        i < row.len(),
        row@[i as int] is Integer,
    ensures
        r == int_at(values_view(row@), i as int),
{
    match &row[i] {
        SqlValue::Integer(v) => *v,
        _ => 0,
    }
}

/// Reads an integer-or-NULL column.
pub fn get_opt_int(row: &Vec<SqlValue>, i: usize) -> (r: Option<i64>)
    requires
        i < row.len(),
    ensures
        r == opt_int_at(values_view(row@), i as int),
{
    match &row[i] {
        SqlValue::Integer(v) => Some(*v),
        _ => None,
    }
}

/// Reads an `i32`-or-NULL column whose integer is in range.
pub fn get_opt_i32(row: &Vec<SqlValue>, i: usize) -> (r: Option<i32>)
    requires
        i < row.len(),
        row@[i as int] matches SqlValue::Integer(v) ==> i32::MIN <= v <= i32::MAX,
    ensures
        r == opt_i32_at(values_view(row@), i as int),
{
    match &row[i] {
        SqlValue::Integer(v) => Some(*v as i32),
        _ => None,
    }
}

/// Reads a text column that holds text.
pub fn get_text(row: &Vec<SqlValue>, i: usize) -> (r: String)
    requires
        i < row.len(),
    ensures
        r@ == text_at(values_view(row@), i as int),
{
    match &row[i] {
        SqlValue::Text(t) => t.clone(),
        _ => String::new(),
    }
}

/// Reads a text-or-NULL column.
pub fn get_opt_text(row: &Vec<SqlValue>, i: usize) -> (r: Option<String>)
    requires
        i < row.len(),
    ensures
        opt_view(r) == opt_text_at(values_view(row@), i as int),
{
    match &row[i] {
        SqlValue::Text(t) => Some(t.clone()),
        _ => None,
    }
}

/// Reads a real-or-NULL column as decimal text.
pub fn get_opt_real(row: &Vec<SqlValue>, i: usize) -> (r: Option<String>)
    requires
        i < row.len(),
    ensures
        opt_view(r) == opt_real_at(values_view(row@), i as int),
{
    match &row[i] {
        SqlValue::Real(t) => Some(t.clone()),
        SqlValue::Integer(v) => Some(decimal_i64(*v)),
        _ => None,
    }
}

/// The value an optional integer is stored as.
pub open spec fn opt_int_value(o: Option<i64>) -> SqlValueView {
    match o {
        Some(v) => SqlValueView::Integer(v),
        None => SqlValueView::Null,
    }
}

pub open spec fn opt_i32_value(o: Option<i32>) -> SqlValueView {
    match o {
        Some(v) => SqlValueView::Integer(v as i64),
        None => SqlValueView::Null,
    }
}

pub open spec fn opt_text_value(o: Option<Seq<char>>) -> SqlValueView {
    match o {
        Some(t) => SqlValueView::Text(t),
        None => SqlValueView::Null,
    }
}

/// A real number is bound as its decimal text; SQLite stores it with the
/// column's real affinity.
pub open spec fn opt_real_value(o: Option<Seq<char>>) -> SqlValueView {
    match o {
        Some(t) => SqlValueView::Text(t),
        None => SqlValueView::Null,
    }
}

pub fn int_value(v: i64) -> (r: SqlValue)
    ensures
        r@ == SqlValueView::Integer(v),
{
    SqlValue::Integer(v)
}

pub fn opt_int_to_value(o: Option<i64>) -> (r: SqlValue)
    ensures
        r@ == opt_int_value(o),
{
    match o {
        Some(v) => SqlValue::Integer(v),
        None => SqlValue::Null,
    }
}

pub fn opt_i32_to_value(o: Option<i32>) -> (r: SqlValue)
    ensures
        r@ == opt_i32_value(o),
{
    match o {
        Some(v) => SqlValue::Integer(v as i64),
        None => SqlValue::Null,
    }
}

pub fn text_value(t: &str) -> (r: SqlValue)
    ensures
        r@ == SqlValueView::Text(t@),
{
    SqlValue::Text(t.to_owned())
}

pub fn opt_text_to_value(o: &Option<String>) -> (r: SqlValue)
    ensures
        r@ == opt_text_value(opt_view(*o)),
{
    match o {
        Some(t) => SqlValue::Text(t.clone()),
        None => SqlValue::Null,
    }
}

pub fn opt_real_to_value(o: &Option<String>) -> (r: SqlValue)
    ensures
        r@ == opt_real_value(opt_view(*o)),
{
    match o {
        Some(t) => SqlValue::Text(t.clone()),
        None => SqlValue::Null,
    }
}

/// Calls `rusqlite::Connection::open` on a file path. Nothing is claimed of
/// the outcome: it depends on the file system.
#[verifier::external_body]
pub(crate) fn sqlite_open(path: &str) -> (r: Result<rusqlite::Connection, rusqlite::Error>) {
    rusqlite::Connection::open(path)
}

/// Calls `rusqlite::Connection::open_in_memory`. Nothing is claimed of the
/// outcome.
#[verifier::external_body]
pub(crate) fn sqlite_open_in_memory() -> (r: Result<rusqlite::Connection, rusqlite::Error>) {
    rusqlite::Connection::open_in_memory()
}

/// Calls `rusqlite::Connection::execute_batch`. Nothing is claimed of the
/// outcome: it depends on the database.
#[verifier::external_body]
pub(crate) fn sqlite_execute_batch(conn: &rusqlite::Connection, sql: &str) -> (r: Result<(), rusqlite::Error>) {
    conn.execute_batch(sql)
}

/// `rusqlite::types::Value::from` on `Null`: the SQL null. Nothing is
/// claimed of the value: it is opaque here.
#[verifier::external_body]
fn value_null() -> (r: Value) {
    Value::from(rusqlite::types::Null)
}

/// `rusqlite::types::Value::from` on an integer: `Value::Integer`. Nothing is
/// claimed of the value: it is opaque here.
#[verifier::external_body]
fn value_integer(i: i64) -> (r: Value) {
    Value::from(i)
}

/// `rusqlite::types::Value::from` on a `String`: `Value::Text`. Nothing is
/// claimed of the value: it is opaque here.
#[verifier::external_body]
fn value_text(t: String) -> (r: Value) {
    Value::from(t)
}

/// `rusqlite::types::Value::from` on bytes: `Value::Blob`. Nothing is claimed
/// of the value: it is opaque here.
#[verifier::external_body]
fn value_blob(b: Vec<u8>) -> (r: Value) {
    Value::from(b)
}

/// The values parameters are bound as, one for one. A real number's decimal
/// text is bound as text, which SQLite keeps as a real number in a column of
/// real affinity.
fn bind_values(params: &Vec<SqlValue>) -> (r: Vec<Value>)
    ensures
        r.len() == params.len(),
{
    let mut bound: Vec<Value> = Vec::new();
    let mut i: usize = 0;
    while i < params.len()
        invariant
            i <= params.len(),
            bound.len() == i,
        decreases params.len() - i,
    {
        let v = match &params[i] {
            SqlValue::Null => value_null(),
            SqlValue::Integer(n) => value_integer(*n),
            SqlValue::Real(t) => value_text(t.clone()),
            SqlValue::Text(t) => value_text(t.clone()),
            SqlValue::Blob(b) => value_blob(b.clone()),
        };
        bound.push(v);
        i = i + 1;
    }
    bound
}

/// Calls `rusqlite::Connection::execute` with the given parameters: the
/// number of rows changed, or the engine's error. Nothing is claimed of the
/// outcome: it depends on the database.
#[verifier::external_body]
pub(crate) fn sqlite_execute(conn: &rusqlite::Connection, sql: &str, params: &Vec<rusqlite::types::Value>) -> (r: Result<usize, rusqlite::Error>) {
    conn.execute(sql, rusqlite::params_from_iter(params.iter()))
}

/// Calls `rusqlite::Connection::prepare`. Nothing is claimed of the outcome:
/// it depends on the database's schema.
#[verifier::external_body]
pub(crate) fn sqlite_prepare<'c>(conn: &'c rusqlite::Connection, sql: &str) -> (r: Result<rusqlite::Statement<'c>, rusqlite::Error>) {
    conn.prepare(sql)
}

/// Calls `rusqlite::Statement::column_count`. Nothing is claimed of the
/// result: it depends on the statement.
#[verifier::external_body]
pub(crate) fn statement_column_count(stmt: &rusqlite::Statement) -> (r: usize) {
    stmt.column_count()
}

/// Runs the statement with `rusqlite::Statement::query_map`, each row read by
/// `read_row`, and collects the rows, or the first error. Nothing is claimed
/// of the rows: they depend on the database.
#[verifier::external_body]
pub(crate) fn statement_rows(stmt: &mut rusqlite::Statement, params: &Vec<Value>, columns: usize) -> (r: Result<Vec<Vec<SqlValue>>, rusqlite::Error>) {
    stmt.query_map(rusqlite::params_from_iter(params.iter()), |row| read_row(row, columns))?.collect()
}

/// Calls `rusqlite::Row::get_ref` for the value of column `i` and gives it
/// variant for variant: a real number as its decimal text, text as read by
/// `Row::get` into a `String` (text that is not UTF-8 gives that call's
/// conversion error). Nothing is claimed of the value: it depends on the
/// database.
#[verifier::external_body]
pub(crate) fn row_value(row: &rusqlite::Row, i: usize) -> (r: Result<SqlValue, rusqlite::Error>) {
    Ok(match row.get_ref(i)? {
        rusqlite::types::ValueRef::Null => SqlValue::Null,
        rusqlite::types::ValueRef::Integer(n) => SqlValue::Integer(n),
        rusqlite::types::ValueRef::Real(x) => SqlValue::Real(x.to_string()),
        rusqlite::types::ValueRef::Text(_) => SqlValue::Text(row.get::<usize, String>(i)?),
        rusqlite::types::ValueRef::Blob(b) => SqlValue::Blob(b.to_vec()),
    })
}

/// The first `columns` values of a result row.
fn read_row(row: &rusqlite::Row, columns: usize) -> (r: Result<Vec<SqlValue>, rusqlite::Error>)
    ensures
        r matches Ok(v) ==> v.len() == columns,
{
    let mut values: Vec<SqlValue> = Vec::new();
    let mut i: usize = 0;
    while i < columns
        invariant
            i <= columns,
            values.len() == i,
        decreases columns - i,
    {
        let v = row_value(row, i)?;
        values.push(v);
        i = i + 1;
    }
    Ok(values)
}

/// Calls `rusqlite::Connection::last_insert_rowid`. Nothing is claimed of the
/// result: it depends on the database.
#[verifier::external_body]
pub(crate) fn sqlite_last_insert_rowid(conn: &rusqlite::Connection) -> (r: i64) {
    conn.last_insert_rowid()
}

/// Calls `rusqlite::Connection::path`. Nothing is claimed of the result: it
/// depends on how the database was opened.
#[verifier::external_body]
pub(crate) fn sqlite_path(conn: &rusqlite::Connection) -> (r: Option<String>) {
    conn.path().map(|p| p.to_string())
}

/// Runs a statement that changes the catalogue and gives the number of rows it
/// changed.
pub fn execute(conn: &rusqlite::Connection, sql: &str, params: &Vec<SqlValue>) -> (r: Result<usize, DbError>)
    ensures
        r matches Err(e) ==> e is Sqlite,
{
    let p = bind_values(params);
    match sqlite_execute(conn, sql, &p) {
        Ok(n) => Ok(n),
        Err(e) => Err(DbError::Sqlite(e)),
    }
}

/// Runs a query and gives all its rows.
pub fn query(conn: &rusqlite::Connection, sql: &str, params: &Vec<SqlValue>) -> (r: Result<Vec<Vec<SqlValue>>, DbError>)
    ensures
        r matches Err(e) ==> e is Sqlite,
{
    let p = bind_values(params);
    let mut stmt = match sqlite_prepare(conn, sql) {
        Ok(s) => s,
        Err(e) => return Err(DbError::Sqlite(e)),
    };
    let columns = statement_column_count(&stmt);
    match statement_rows(&mut stmt, &p, columns) {
        Ok(rows) => Ok(rows),
        Err(e) => Err(DbError::Sqlite(e)),
    }
}

/// Runs statements that take no parameters and yield no rows.
pub fn execute_batch(conn: &rusqlite::Connection, sql: &str) -> (r: Result<(), DbError>)
    ensures
        r matches Err(e) ==> e is Sqlite,
{
    match sqlite_execute_batch(conn, sql) {
        Ok(()) => Ok(()),
        Err(e) => Err(DbError::Sqlite(e)),
    }
}

} // verus!
