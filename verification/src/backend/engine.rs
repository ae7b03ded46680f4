//! The calls into SQLite and the connection pool. Nothing in this file is
//! proved. Each function makes one call and promises nothing of the answer:
//! what a database answers depends on what it holds, and that is beyond the
//! reach of a contract.

use crate::backend::row::{SqlValue, StoredRow};
use r2d2::Error as PoolError;
use r2d2_sqlite::SqliteConnectionManager;
use rusqlite::types::{ToSqlOutput, ValueRef};
use rusqlite::Error as SqliteError;
use rusqlite::{params_from_iter, Connection, Statement, Transaction};
use vstd::prelude::*;

verus! {

#[verifier::external_type_specification]
#[verifier::external_body]
pub struct ExSqliteError(SqliteError);

#[verifier::external_type_specification]
#[verifier::external_body]
pub struct ExPoolError(PoolError);

#[verifier::external_type_specification]
#[verifier::external_body]
pub struct ExConnection(Connection);

#[verifier::external_type_specification]
#[verifier::external_body]
pub struct ExTransaction<'conn>(Transaction<'conn>);

#[verifier::external_type_specification]
#[verifier::external_body]
pub struct ExStatement<'conn>(Statement<'conn>);

#[verifier::external_type_specification]
#[verifier::external_body]
pub struct ExManager(SqliteConnectionManager);

/// An `r2d2::Pool` of SQLite connections. The pool's own type is generic over
/// a trait of `r2d2`, which the verifier cannot be told about, so the pool is
/// kept out of its sight in this struct.
#[verifier::external_body]
#[derive(Debug)]
pub(crate) struct ConnectionPool {
    inner: r2d2::Pool<SqliteConnectionManager>,
}

/// One connection on loan from the pool: an `r2d2::PooledConnection`, kept
/// out of the verifier's sight for the same reason. The connection goes back
/// to the pool when the handle is dropped.
#[verifier::external_body]
pub(crate) struct PooledHandle {
    inner: r2d2::PooledConnection<SqliteConnectionManager>,
}

/// `r2d2::Pool::new`: builds a pool with the default configuration. It fails
/// where the first connections cannot be opened.
#[verifier::external_body]
pub(crate) fn open_pool(manager: SqliteConnectionManager) -> (r: Result<
    ConnectionPool,
    PoolError,
>) {
    r2d2::Pool::new(manager).map(|inner| ConnectionPool { inner })
}

/// `r2d2::Pool::get`: waits for a free connection, up to the pool's timeout.
#[verifier::external_body]
pub(crate) fn checkout(pool: &ConnectionPool) -> (r: Result<PooledHandle, PoolError>) {
    pool.inner.get().map(|inner| PooledHandle { inner })
}

/// The `Deref` of `r2d2::PooledConnection`: the connection that is on loan.
#[verifier::external_body]
pub(crate) fn connection(handle: &PooledHandle) -> (conn: &Connection) {
    &handle.inner
}

/// `rusqlite::Connection::transaction`: begins a deferred transaction, which
/// rolls back when it is dropped without a commit.
#[verifier::external_body]
pub(crate) fn begin<'a>(handle: &'a mut PooledHandle) -> (r: Result<
    Transaction<'a>,
    SqliteError,
>) {
    handle.inner.transaction()
}

/// The `Deref` of `rusqlite::Transaction`: the connection that it runs on.
#[verifier::external_body]
pub(crate) fn transaction_connection<'a>(tx: &'a Transaction<'_>) -> (conn: &'a Connection) {
    tx
}

/// `rusqlite::Transaction::commit`.
#[verifier::external_body]
pub(crate) fn commit(tx: Transaction<'_>) -> (r: Result<(), SqliteError>) {
    tx.commit()
}

/// `rusqlite::Connection::execute`: prepares `sql`, binds `params` to its
/// placeholders in order, each as the SQLite value of its kind, and runs the
/// statement. On success the answer is the number of rows that SQLite
/// reports as changed.
#[verifier::external_body]
pub(crate) fn execute(conn: &Connection, sql: &str, params: &Vec<SqlValue>) -> (r: Result<
    usize,
    SqliteError,
>) {
    conn.execute(sql, params_from_iter(params.iter().map(|p| match p {
        SqlValue::Integer(i) => ToSqlOutput::Borrowed(ValueRef::Integer(*i)),
        SqlValue::Text(s) => ToSqlOutput::Borrowed(ValueRef::Text(s.as_bytes())),
        SqlValue::Blob(b) => ToSqlOutput::Borrowed(ValueRef::Blob(b)),
    })))
}

/// `rusqlite::Connection::prepare`.
#[verifier::external_body]
pub(crate) fn prepare<'a>(conn: &'a Connection, sql: &str) -> (r: Result<
    Statement<'a>,
    SqliteError,
>) {
    conn.prepare(sql)
}

/// `rusqlite::Statement::query_row` with `Row::get` on the first column:
/// binds `params` and reads the first row's first column as a `u32`. It fails
/// where the query gives no row or the column holds no integer in the range
/// of `u32`.
#[verifier::external_body]
pub(crate) fn query_u32(stmt: &mut Statement<'_>, params: &Vec<SqlValue>) -> (r: Result<
    u32,
    SqliteError,
>) {
    let bound = params_from_iter(params.iter().map(|p| match p {
        SqlValue::Integer(i) => ToSqlOutput::Borrowed(ValueRef::Integer(*i)),
        SqlValue::Text(s) => ToSqlOutput::Borrowed(ValueRef::Text(s.as_bytes())),
        SqlValue::Blob(b) => ToSqlOutput::Borrowed(ValueRef::Blob(b)),
    }));
    stmt.query_row(bound, |row| row.get(0))
}

/// `rusqlite::Statement::query_map`, walked to its end: binds `params` and
/// gives every row of the answer in the order in which SQLite gives them, the
/// first three columns read with `Row::get` as text, blob and `u32`. An entry
/// is an error where stepping to that row failed; no row follows such an
/// entry.
#[verifier::external_body]
pub(crate) fn query_rows(stmt: &mut Statement<'_>, params: &Vec<SqlValue>) -> (r: Result<
    Vec<Result<StoredRow, SqliteError>>,
    SqliteError,
>) {
    let bound = params_from_iter(params.iter().map(|p| match p {
        SqlValue::Integer(i) => ToSqlOutput::Borrowed(ValueRef::Integer(*i)),
        SqlValue::Text(s) => ToSqlOutput::Borrowed(ValueRef::Text(s.as_bytes())),
        SqlValue::Blob(b) => ToSqlOutput::Borrowed(ValueRef::Blob(b)),
    }));
    let rows = stmt.query_map(bound, |row| {
        Ok(StoredRow { id: row.get(0), data: row.get(1), version: row.get(2) })
    })?;
    Ok(rows.collect())
}

} // verus!
