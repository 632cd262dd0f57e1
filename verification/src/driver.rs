use vstd::prelude::*;

verus! {

use crate::values::SqliteValue;

#[verifier::external_type_specification]
#[verifier::external_body]
pub struct ExR2d2Error(r2d2::Error);

#[verifier::external_type_specification]
#[verifier::external_body]
pub struct ExRusqliteError(rusqlite::Error);

#[verifier::external_type_specification]
#[verifier::external_body]
pub struct ExSqlValue(rusqlite::types::Value);

/// The bounded pool of physical connections. The `r2d2` pool inside is
/// opaque; everything the library claims of it goes through the wrappers
/// below. (`r2d2::Pool`'s `ManageConnection` bound keeps the type itself
/// from being declared directly.)
#[verifier::external_body]
pub struct PoolHandle {
    pool: r2d2::Pool<r2d2_sqlite::SqliteConnectionManager>,
}

/// One physical connection checked out of the pool, exclusively ours until
/// it drops back in.
#[verifier::external_body]
pub struct Conn {
    conn: r2d2::PooledConnection<r2d2_sqlite::SqliteConnectionManager>,
}

/// Relies on `rusqlite::types::Value`: moves each column value of the
/// library into the engine's corresponding variant, a real taking its bit
/// pattern back through `bytemuck::cast`.
#[verifier::external_body]
fn to_sql_value(v: &SqliteValue) -> (r: rusqlite::types::Value) {
    match v {
        SqliteValue::Null => rusqlite::types::Value::Null,
        SqliteValue::Integer(n) => rusqlite::types::Value::Integer(*n),
        SqliteValue::Real(bits) => rusqlite::types::Value::Real(bytemuck::cast(*bits)),
        SqliteValue::Text(s) => rusqlite::types::Value::Text(s.clone()),
        SqliteValue::Blob(b) => rusqlite::types::Value::Blob(b.clone()),
    }
}

/// Relies on `rusqlite::types::Value`: moves each variant of the engine's
/// column value into the library's, a real becoming its bit pattern.
#[verifier::external_body]
fn from_sql_value(v: rusqlite::types::Value) -> (r: SqliteValue) {
    match v {
        rusqlite::types::Value::Null => SqliteValue::Null,
        rusqlite::types::Value::Integer(n) => SqliteValue::Integer(n),
        rusqlite::types::Value::Real(x) => SqliteValue::Real(x.to_bits()),
        rusqlite::types::Value::Text(s) => SqliteValue::Text(s),
        rusqlite::types::Value::Blob(b) => SqliteValue::Blob(b),
    }
}

/// The bound a pool was built with: the most connections it will ever
/// hold out at once. The pool is opaque, so the bound is a named result of
/// its construction.
pub uninterp spec fn pool_bound(p: PoolHandle) -> u32;

/// Relies on `r2d2::Pool::builder` with `max_size` and
/// `r2d2_sqlite::SqliteConnectionManager::memory`: a bounded pool whose
/// physical connections each open the same in-memory primary database.
/// `r2d2` panics on a zero bound, so that input is kept out.
#[verifier::external_body]
pub fn pool_new(connection_limit: u32) -> (r: Result<PoolHandle, r2d2::Error>)
    requires
        connection_limit > 0,
    ensures
        r matches Ok(p) ==> pool_bound(p) == connection_limit,
{
    let pool = r2d2::Pool::builder().max_size(connection_limit).build(
        r2d2_sqlite::SqliteConnectionManager::memory(),
    )?;
    Ok(PoolHandle { pool })
}

/// Relies on `r2d2::Pool::get`: a connection for this caller's exclusive
/// use, or an error once the bounded wait for one times out.
#[verifier::external_body]
pub fn pool_get(pool: &PoolHandle) -> (r: Result<Conn, r2d2::Error>) {
    Ok(Conn { conn: pool.pool.get()? })
}

/// Relies on `rusqlite::Connection::execute` through the pooled
/// connection: prepares the statement, binds the parameters positionally,
/// runs it, and counts changed rows. What it does to the database depends
/// on the statement and the database's state; nothing is claimed of it.
#[verifier::external_body]
pub fn conn_execute(conn: &mut Conn, sql: &str, params: &Vec<SqliteValue>) -> (r: Result<
    usize,
    rusqlite::Error,
>) {
    conn.conn.execute(sql, rusqlite::params_from_iter(params.iter().map(to_sql_value)))
}

/// Relies on `rusqlite`'s `prepare`, `query` and `Row::get`: runs the
/// statement and hands every result row back, each column converted to the
/// library's column value. Which rows come back depends on the database's
/// state; nothing is claimed of them.
#[verifier::external_body]
pub fn conn_query(conn: &mut Conn, sql: &str, params: &Vec<SqliteValue>) -> (r: Result<
    Vec<Vec<SqliteValue>>,
    rusqlite::Error,
>) {
    let mut stmt = conn.conn.prepare(sql)?;
    let n = stmt.column_count();
    let mut rows = stmt.query(rusqlite::params_from_iter(params.iter().map(to_sql_value)))?;
    let mut out = Vec::new();
    while let Some(row) = rows.next()? {
        let mut vals = Vec::new();
        for i in 0..n {
            vals.push(from_sql_value(row.get::<usize, rusqlite::types::Value>(i)?));
        }
        out.push(vals);
    }
    Ok(out)
}

/// Relies on `rusqlite::Connection::last_insert_rowid`: the rowid the
/// engine assigned to this connection's most recent successful insert.
#[verifier::external_body]
pub fn last_insert_rowid(conn: &Conn) -> (r: i64) {
    conn.conn.last_insert_rowid()
}

/// Relies on `rusqlite::Error`'s display impl for the driver's message
/// text.
#[verifier::external_body]
pub fn rusqlite_error_text(e: &rusqlite::Error) -> (r: String) {
    format!("{}", e)
}

/// Relies on `r2d2::Error`'s display impl for the pool's message text.
#[verifier::external_body]
pub fn r2d2_error_text(e: &r2d2::Error) -> (r: String) {
    format!("{}", e)
}

} // verus!
