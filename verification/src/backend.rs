//! The trusted boundary to the storage engine and the pool.
//!
//! Everything this layer knows about `r2d2`, `r2d2_sqlite`, and `rusqlite` is
//! stated here: type declarations for the handles that flow through the
//! library, and one small wrapper per outside call. Each wrapper's contract
//! states only what the called crate's source shows; all interpretation of
//! results happens in verified code on plain values.

use vstd::prelude::*;

use crate::sql::SqlValue;

verus! {

#[verifier::external_type_specification]
#[verifier::external_body]
pub struct ExSqliteConnectionManager(r2d2_sqlite::SqliteConnectionManager);

/// Holds the `r2d2` pool. Opaque to the verifier: the pool type's own
/// generic bound is a trait of an outside crate, which cannot be declared
/// here, so the pool lives in a private field of this struct instead.
#[verifier::external_body]
pub struct RawPool {
    inner: r2d2::Pool<r2d2_sqlite::SqliteConnectionManager>,
}

#[verifier::external_type_specification]
#[verifier::external_body]
pub struct ExValueRef<'a>(rusqlite::types::ValueRef<'a>);

#[verifier::external_type_specification]
#[verifier::external_body]
pub struct ExInstant(std::time::Instant);

/// One checked-out handle: exclusively owned by its holder and returned to
/// the pool when dropped, on every exit path. Opaque to the verifier for the
/// same reason as [`RawPool`].
#[verifier::external_body]
pub struct DatabaseHandle {
    inner: r2d2::PooledConnection<r2d2_sqlite::SqliteConnectionManager>,
}

/// The fixed capacity a pool was built with. `r2d2` stores it in the pool's
/// shared configuration, set once at build time and never changed; the
/// wrappers below tie it to what `build` was given, what `state`/`max_size`
/// report, and what `clone` shares.
pub uninterp spec fn pool_capacity(pool: RawPool) -> u32;

/// What std's formatter renders for a size shown as a whole part, a
/// hundredths part, and a unit; a function of those arguments alone.
pub uninterp spec fn rendered_size(whole: u64, hundredths: u64, unit: Seq<char>) -> Seq<char>;

/// Relies on `r2d2_sqlite::SqliteConnectionManager::file` and `with_init`:
/// a manager that opens the given storage file and runs the given statement
/// batch on every new connection.
#[verifier::external_body]
pub(crate) fn sqlite_manager(path: &str, init_sql: String) -> r2d2_sqlite::SqliteConnectionManager {
    r2d2_sqlite::SqliteConnectionManager::file(path).with_init(
        move |conn| conn.execute_batch(&init_sql),
    )
}

/// Relies on `r2d2::Builder` and `build`: the builder panics on a zero
/// maximum size, a zero timeout, or a minimum idle count above the maximum
/// size, hence the preconditions; `build` blocks until the initial
/// connections are established and reports its timeout error otherwise.
/// The returned pool's fixed capacity is the `max_size` it was given.
#[verifier::external_body]
pub(crate) fn build_pool_raw(
    manager: r2d2_sqlite::SqliteConnectionManager,
    max_size: u32,
    timeout_secs: u64,
    min_idle: Option<u32>,
    idle_timeout_secs: Option<u64>,
    max_lifetime_secs: Option<u64>,
) -> (r: Result<RawPool, String>)
    requires
        max_size >= 1,
        timeout_secs >= 1,
        min_idle matches Some(m) ==> m <= max_size,
        idle_timeout_secs matches Some(s) ==> s >= 1,
        max_lifetime_secs matches Some(s) ==> s >= 1,
    ensures
        r matches Ok(p) ==> pool_capacity(p) == max_size,
{
    r2d2::Pool::builder()
        .max_size(max_size)
        .connection_timeout(std::time::Duration::from_secs(timeout_secs))
        .min_idle(min_idle)
        .idle_timeout(idle_timeout_secs.map(std::time::Duration::from_secs))
        .max_lifetime(max_lifetime_secs.map(std::time::Duration::from_secs))
        .build(manager)
        .map(|inner| RawPool { inner })
        .map_err(|e| e.to_string())
}

/// Relies on `r2d2::Pool::get`: waits at most the pool's configured checkout
/// timeout for a free handle, then fails with its timeout error.
#[verifier::external_body]
pub(crate) fn pool_get(pool: &RawPool) -> (r: Result<DatabaseHandle, String>) {
    pool.inner.get().map(|inner| DatabaseHandle { inner }).map_err(|e| e.to_string())
}

/// Relies on `r2d2::Pool::get_timeout`: as `get`, but waiting at most the
/// given number of milliseconds.
#[verifier::external_body]
pub(crate) fn pool_get_timeout_ms(pool: &RawPool, timeout_ms: u64) -> (r: Result<
    DatabaseHandle,
    String,
>) {
    pool.inner
        .get_timeout(std::time::Duration::from_millis(timeout_ms))
        .map(|inner| DatabaseHandle { inner })
        .map_err(|e| e.to_string())
}

/// Relies on `r2d2::Pool::state` and `max_size`: in the returned triple
/// (managed, idle, capacity), the idle handles are among the managed ones,
/// the pool never manages more handles than its fixed capacity, and the
/// third component is that fixed capacity.
#[verifier::external_body]
pub(crate) fn pool_snapshot(pool: &RawPool) -> (r: (u32, u32, u32))
    ensures
        r.1 <= r.0,
        r.0 <= r.2,
        r.2 == pool_capacity(*pool),
{
    let state = pool.inner.state();
    (state.connections, state.idle_connections, pool.inner.max_size())
}

/// Relies on `r2d2::Pool` being a shared handle: `clone` yields a handle to
/// the same underlying pool, with the same fixed capacity.
#[verifier::external_body]
pub(crate) fn pool_share(pool: &RawPool) -> (r: RawPool)
    ensures
        pool_capacity(r) == pool_capacity(*pool),
{
    RawPool { inner: pool.inner.clone() }
}

/// Relies on `rusqlite::Connection::execute` (through the pooled handle):
/// runs one parameterized statement and returns the changed-row count.
#[verifier::external_body]
pub(crate) fn exec_raw(conn: &DatabaseHandle, sql: &str, params: &Vec<String>) -> (r: Result<
    usize,
    String,
>) {
    conn.inner.execute(sql, rusqlite::params_from_iter(params.iter())).map_err(|e| e.to_string())
}

/// Relies on `rusqlite::Connection::execute_batch`: runs a batch of
/// statements without parameters; used for transaction control and pragmas.
#[verifier::external_body]
pub(crate) fn exec_batch_raw(conn: &DatabaseHandle, sql: &str) -> (r: Result<(), String>) {
    conn.inner.execute_batch(sql).map_err(|e| e.to_string())
}

/// Relies on `rusqlite::types::ValueRef`: converts the dynamic value of one
/// column into this layer's plain value, rejecting types the schema of this
/// layer never reads.
#[verifier::external_body]
pub(crate) fn sql_value_of(v: rusqlite::types::ValueRef<'_>) -> (r: Result<SqlValue, String>) {
    match v {
        rusqlite::types::ValueRef::Null => Ok(SqlValue::Null),
        rusqlite::types::ValueRef::Integer(i) => Ok(SqlValue::Integer(i)),
        rusqlite::types::ValueRef::Text(t) => match std::str::from_utf8(t) {
            Ok(s) => Ok(SqlValue::Text(s.to_string())),
            Err(e) => Err(e.to_string()),
        },
        _ => Err("unsupported column type".to_string()),
    }
}

/// Relies on `rusqlite::Statement::query` and `Row::get_ref`: runs one
/// parameterized query and hands every row back as plain values.
#[verifier::external_body]
pub(crate) fn query_rows_raw(conn: &DatabaseHandle, sql: &str, params: &Vec<String>) -> (r: Result<
    Vec<Vec<SqlValue>>,
    String,
>) {
    let go = || -> Result<Vec<Vec<SqlValue>>, String> {
        let mut stmt = conn.inner.prepare(sql).map_err(|e| e.to_string())?;
        let ncols = stmt.column_count();
        let mut rows = stmt.query(rusqlite::params_from_iter(params.iter())).map_err(|e| e.to_string())?;
        let mut out = Vec::new();
        while let Some(row) = rows.next().map_err(|e| e.to_string())? {
            let mut cells = Vec::new();
            for i in 0..ncols { cells.push(sql_value_of(row.get_ref(i).map_err(|e| e.to_string())?)?); }
            out.push(cells);
        }
        Ok(out)
    };
    go()
}

/// Relies on `std::time::Instant::now` for a monotonic starting point.
#[verifier::external_body]
pub(crate) fn instant_now() -> std::time::Instant {
    std::time::Instant::now()
}

/// Relies on `std::time::Instant::elapsed`: whole milliseconds since the
/// given point, saturating at `u64::MAX`.
#[verifier::external_body]
pub(crate) fn millis_since(start: &std::time::Instant) -> u64 {
    u64::try_from(start.elapsed().as_millis()).unwrap_or(u64::MAX)
}

/// Relies on `chrono::Utc::now` and `to_rfc3339` for the ledger's applied-at
/// timestamp text.
#[verifier::external_body]
pub(crate) fn now_rfc3339() -> String {
    chrono::Utc::now().to_rfc3339()
}

/// Relies on std's formatting machinery to render a size as a number with
/// two decimals and a unit; the result depends on the arguments alone.
#[verifier::external_body]
pub(crate) fn render_size(whole: u64, hundredths: u64, unit: &str) -> (r: String)
    ensures
        r@ == rendered_size(whole, hundredths, unit@),
{
    format!("{}.{:02} {}", whole, hundredths, unit)
}

} // verus!
