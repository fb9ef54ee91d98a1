//! The connection wrapper and transaction executor.
//!
//! Every operation checks exactly one handle out of the pool for its
//! duration. `with_transaction` runs a body inside a write-intent
//! transaction and commits on `Ok`, rolls back on `Err`, propagating the
//! body's own error; `with_read_transaction` is the read-only variant and
//! refuses writes issued by its body.

use vstd::prelude::*;

use crate::backend::{exec_batch_raw, exec_raw, query_rows_raw, DatabaseHandle};
use crate::errors::DatabaseError;
use crate::pool::DatabasePool;
use crate::sql::SqlValue;

verus! {

/// Description of one column of a table, as the engine's catalog reports it.
#[derive(Debug, Clone, PartialEq, Eq)]
pub struct ColumnInfo {
    /// Column name.
    pub name: String,
    /// Declared column type.
    pub data_type: String,
    /// Whether the column is NOT NULL.
    pub not_null: bool,
    /// Default value text, if any.
    pub default_value: Option<String>,
    /// Whether the column belongs to the primary key.
    pub primary_key: bool,
}

/// What one well-formed catalog column row looks like: position, name,
/// type, not-null flag, optional default text, primary-key flag.
pub open spec fn column_row_wf(row: Seq<SqlValue>) -> bool {
    &&& row.len() == 6
    &&& row[1] is Text
    &&& row[2] is Text
    &&& row[3] is Integer
    &&& (row[4] is Null || row[4] is Text)
    &&& row[5] is Integer
}

/// How one catalog row reads back as a column description.
pub open spec fn column_parses_to(row: Seq<SqlValue>, c: ColumnInfo) -> bool {
    &&& row.len() == 6
    &&& (row[1] matches SqlValue::Text(s) && s == c.name)
    &&& (row[2] matches SqlValue::Text(s) && s == c.data_type)
    &&& (row[3] matches SqlValue::Integer(n) && c.not_null == (n != 0))
    &&& (match row[4] {
        SqlValue::Null => c.default_value is None,
        SqlValue::Text(s) => c.default_value == Some(s),
        SqlValue::Integer(_) => false,
    })
    &&& (row[5] matches SqlValue::Integer(p) && c.primary_key == (p != 0))
}

/// Parses catalog column rows: every well-formed row parses, a malformed
/// one is a query error.
pub fn parse_column_rows(rows: &Vec<Vec<SqlValue>>) -> (r: Result<Vec<ColumnInfo>, DatabaseError>)
    ensures
        r matches Ok(cols) ==> cols@.len() == rows@.len() && (forall|i: int|
            0 <= i < rows@.len() ==> column_parses_to(rows@[i]@, #[trigger] cols@[i])),
        r matches Err(e) ==> e is Query && (exists|i: int|
            0 <= i < rows@.len() && !column_row_wf((#[trigger] rows@[i])@)),
        (forall|i: int| 0 <= i < rows@.len() ==> column_row_wf((#[trigger] rows@[i])@)) ==> r is Ok,
{
    let mut out: Vec<ColumnInfo> = Vec::new();
    let mut i: usize = 0;
    while i < rows.len()
        invariant
            i <= rows@.len(),
            out@.len() == i,
            forall|j: int| 0 <= j < i ==> column_parses_to(rows@[j]@, #[trigger] out@[j]),
        decreases rows@.len() - i,
    {
        let row = &rows[i];
        if row.len() != 6 {
            return Err(DatabaseError::Query("catalog row has a wrong shape".to_owned()));
        }
        let name: String = match &row[1] {
            SqlValue::Text(s) => s.clone(),
            _ => {
                return Err(DatabaseError::Query("catalog name is not text".to_owned()));
            },
        };
        let data_type: String = match &row[2] {
            SqlValue::Text(s) => s.clone(),
            _ => {
                return Err(DatabaseError::Query("catalog type is not text".to_owned()));
            },
        };
        let not_null: bool = match &row[3] {
            SqlValue::Integer(n) => *n != 0,
            _ => {
                return Err(DatabaseError::Query("catalog not-null flag is not an integer".to_owned()));
            },
        };
        let default_value: Option<String> = match &row[4] {
            SqlValue::Null => None,
            SqlValue::Text(s) => Some(s.clone()),
            _ => {
                return Err(DatabaseError::Query("catalog default is neither null nor text".to_owned()));
            },
        };
        let primary_key: bool = match &row[5] {
            SqlValue::Integer(p) => *p != 0,
            _ => {
                return Err(DatabaseError::Query("catalog key flag is not an integer".to_owned()));
            },
        };
        out.push(ColumnInfo { name, data_type, not_null, default_value, primary_key });
        i += 1;
    }
    Ok(out)
}

/// Reads the single integer cell a counting query owes: the first cell of
/// the first row when it is an integer, and a query error otherwise.
pub fn count_result(rows: &Vec<Vec<SqlValue>>) -> (r: Result<i64, DatabaseError>)
    ensures
        r matches Ok(n) ==> rows@.len() > 0 && rows@[0].len() > 0 && rows@[0][0]
            == SqlValue::Integer(n),
        r matches Err(e) ==> e is Query && !(rows@.len() > 0 && rows@[0].len() > 0
            && rows@[0][0] is Integer),
{
    if rows.len() == 0 {
        Err(DatabaseError::Query("counting query returned no rows".to_owned()))
    } else if rows[0].len() == 0 {
        Err(DatabaseError::Query("counting query returned an empty row".to_owned()))
    } else {
        match &rows[0][0] {
            SqlValue::Integer(n) => Ok(*n),
            _ => Err(DatabaseError::Query("counting query returned a non-integer".to_owned())),
        }
    }
}

/// Reads a counting query's answer as existence: `Ok(true)` exactly when
/// the counted total is positive.
pub fn exists_result(rows: &Vec<Vec<SqlValue>>) -> (r: Result<bool, DatabaseError>)
    ensures
        r matches Ok(b) ==> rows@.len() > 0 && rows@[0].len() > 0 && (rows@[0][0]
            matches SqlValue::Integer(n) && b == (n > 0)),
        r matches Err(e) ==> e is Query && !(rows@.len() > 0 && rows@[0].len() > 0
            && rows@[0][0] is Integer),
        rows@.len() > 0 && rows@[0].len() > 0 && rows@[0][0] is Integer ==> r is Ok,
{
    match count_result(rows) {
        Ok(n) => Ok(n > 0),
        Err(e) => Err(e),
    }
}

/// Reads a counting query's answer as a nonnegative count; a negative
/// integer is a query error, like any other unexpected shape.
pub fn nonnegative_count(rows: &Vec<Vec<SqlValue>>) -> (r: Result<u64, DatabaseError>)
    ensures
        r matches Ok(v) ==> rows@.len() > 0 && rows@[0].len() > 0 && rows@[0][0]
            == SqlValue::Integer(v as i64),
        r matches Err(e) ==> e is Query && !(rows@.len() > 0 && rows@[0].len() > 0 && (rows@[0][0]
            matches SqlValue::Integer(n) && n >= 0)),
        rows@.len() > 0 && rows@[0].len() > 0 && (rows@[0][0] matches SqlValue::Integer(n) && n
            >= 0) ==> r is Ok,
{
    match count_result(rows) {
        Ok(n) => {
            if n >= 0 {
                Ok(n as u64)
            } else {
                Err(DatabaseError::Query("row count is negative".to_owned()))
            }
        },
        Err(e) => Err(e),
    }
}

/// Picks the single row a one-row query owes: the first row when one came
/// back, and a not-found error when none did.
pub fn single_row_of(rows: Vec<Vec<SqlValue>>) -> (r: Result<Vec<SqlValue>, DatabaseError>)
    ensures
        rows@.len() == 0 ==> (r matches Err(e) && e is NotFound),
        rows@.len() > 0 ==> r == Ok::<_, DatabaseError>(rows@[0]),
{
    let mut rows = rows;
    if rows.len() == 0 {
        Err(DatabaseError::NotFound("query returned no rows".to_owned()))
    } else {
        Ok(rows.remove(0))
    }
}

/// One open transaction on one borrowed handle. Statements issued through
/// it are atomic as a set: the executor commits or rolls them back together.
pub struct TransactionHandle {
    conn: DatabaseHandle,
}

impl TransactionHandle {
    /// Runs one parameterized statement inside the transaction, returning
    /// the changed-row count.
    pub fn execute(&self, sql: &str, params: &Vec<String>) -> (r: Result<usize, DatabaseError>)
        ensures
            r matches Err(e) ==> e is Query,
    {
        match exec_raw(&self.conn, sql, params) {
            Ok(n) => Ok(n),
            Err(m) => Err(DatabaseError::Query(m)),
        }
    }

    /// Runs one parameterized query inside the transaction, returning every
    /// row as plain values.
    pub fn query_rows(&self, sql: &str, params: &Vec<String>) -> (r: Result<
        Vec<Vec<SqlValue>>,
        DatabaseError,
    >)
        ensures
            r matches Err(e) ==> e is Query,
    {
        match query_rows_raw(&self.conn, sql, params) {
            Ok(rows) => Ok(rows),
            Err(m) => Err(DatabaseError::Query(m)),
        }
    }

    /// Runs a one-row query inside the transaction; zero rows is a
    /// not-found error, distinct from a statement failure.
    pub fn query_row(&self, sql: &str, params: &Vec<String>) -> (r: Result<
        Vec<SqlValue>,
        DatabaseError,
    >)
        ensures
            r matches Err(e) ==> (e is Query || e is NotFound),
    {
        match self.query_rows(sql, params) {
            Ok(rows) => single_row_of(rows),
            Err(e) => Err(e),
        }
    }
}

/// The connection wrapper: borrows one pooled handle per operation and
/// releases it before returning.
pub struct DatabaseConnection {
    pool: DatabasePool,
}

impl DatabaseConnection {
    /// Wraps a pool handle.
    pub fn new(pool: DatabasePool) -> (r: Self) {
        DatabaseConnection { pool }
    }

    /// A second wrapper over the same pool.
    pub fn share(&self) -> (r: Self) {
        DatabaseConnection { pool: self.pool.share() }
    }

    /// Checks one handle out of the pool.
    pub fn get_connection(&self) -> (r: Result<DatabaseHandle, DatabaseError>)
        ensures
            r matches Err(e) ==> e is PoolExhausted,
    {
        self.pool.acquire()
    }

    /// Runs one parameterized statement on a freshly borrowed handle,
    /// returning the changed-row count.
    pub fn execute(&self, sql: &str, params: &Vec<String>) -> (r: Result<usize, DatabaseError>)
        ensures
            r matches Err(e) ==> (e is PoolExhausted || e is Query),
    {
        let conn = match self.get_connection() {
            Ok(c) => c,
            Err(e) => {
                return Err(e);
            },
        };
        match exec_raw(&conn, sql, params) {
            Ok(n) => Ok(n),
            Err(m) => Err(DatabaseError::Query(m)),
        }
    }

    /// Runs one parameterized query, returning every row as plain values.
    pub fn query_map(&self, sql: &str, params: &Vec<String>) -> (r: Result<
        Vec<Vec<SqlValue>>,
        DatabaseError,
    >)
        ensures
            r matches Err(e) ==> (e is PoolExhausted || e is Query),
    {
        let conn = match self.get_connection() {
            Ok(c) => c,
            Err(e) => {
                return Err(e);
            },
        };
        match query_rows_raw(&conn, sql, params) {
            Ok(rows) => Ok(rows),
            Err(m) => Err(DatabaseError::Query(m)),
        }
    }

    /// Runs a one-row query; zero rows is a not-found error, distinct from
    /// a statement failure.
    pub fn query_row(&self, sql: &str, params: &Vec<String>) -> (r: Result<
        Vec<SqlValue>,
        DatabaseError,
    >)
        ensures
            r matches Err(e) ==> (e is PoolExhausted || e is Query || e is NotFound),
    {
        match self.query_map(sql, params) {
            Ok(rows) => single_row_of(rows),
            Err(e) => Err(e),
        }
    }

    /// Runs a write-intent transaction: begins immediately, runs the body,
    /// commits on `Ok` and rolls back on `Err`, propagating the body's own
    /// error unchanged; a rollback failure never masks it.
    pub fn with_transaction<R, F: FnOnce(&TransactionHandle) -> Result<
        R,
        DatabaseError,
    >>(&self, f: F) -> (r: Result<R, DatabaseError>)
        requires
            forall|h: TransactionHandle| call_requires(f, (&h,)),
        ensures
            r matches Ok(v) ==> (exists|h: TransactionHandle|
                call_ensures(f, (&h,), Ok::<R, DatabaseError>(v))),
            r matches Err(e) ==> (e is PoolExhausted || e is Transaction || (
            exists|h: TransactionHandle|
                call_ensures(f, (&h,), Err::<R, DatabaseError>(e)))),
    {
        let conn = match self.get_connection() {
            Ok(c) => c,
            Err(e) => {
                return Err(e);
            },
        };
        if let Err(m) = exec_batch_raw(&conn, "BEGIN IMMEDIATE;") {
            return Err(DatabaseError::Transaction(m));
        }
        let handle = TransactionHandle { conn };
        match f(&handle) {
            Ok(v) => {
                match exec_batch_raw(&handle.conn, "COMMIT;") {
                    Ok(()) => Ok(v),
                    Err(m) => Err(DatabaseError::Transaction(m)),
                }
            },
            Err(e) => {
                let _ = exec_batch_raw(&handle.conn, "ROLLBACK;");
                Err(e)
            },
        }
    }

    /// Runs a read-only transaction: begins a deferred transaction with the
    /// handle pinned read-only, so a body that issues a write fails; commits
    /// on `Ok` to release the read snapshot.
    pub fn with_read_transaction<R, F: FnOnce(&TransactionHandle) -> Result<
        R,
        DatabaseError,
    >>(&self, f: F) -> (r: Result<R, DatabaseError>)
        requires
            forall|h: TransactionHandle| call_requires(f, (&h,)),
        ensures
            r matches Ok(v) ==> (exists|h: TransactionHandle|
                call_ensures(f, (&h,), Ok::<R, DatabaseError>(v))),
            r matches Err(e) ==> (e is PoolExhausted || e is Transaction || (
            exists|h: TransactionHandle|
                call_ensures(f, (&h,), Err::<R, DatabaseError>(e)))),
    {
        let conn = match self.get_connection() {
            Ok(c) => c,
            Err(e) => {
                return Err(e);
            },
        };
        if let Err(m) = exec_batch_raw(&conn, "BEGIN DEFERRED;\nPRAGMA query_only = ON;") {
            return Err(DatabaseError::Transaction(m));
        }
        let handle = TransactionHandle { conn };
        match f(&handle) {
            Ok(v) => {
                match exec_batch_raw(&handle.conn, "PRAGMA query_only = OFF;\nCOMMIT;") {
                    Ok(()) => Ok(v),
                    Err(m) => Err(DatabaseError::Transaction(m)),
                }
            },
            Err(e) => {
                let _ = exec_batch_raw(&handle.conn, "PRAGMA query_only = OFF;\nROLLBACK;");
                Err(e)
            },
        }
    }

    /// Whether a table of the given name exists in the catalog: the answer
    /// of [`exists_result`] on the counting query's rows, handed through
    /// unchanged.
    pub fn table_exists(&self, table_name: &str) -> (r: Result<bool, DatabaseError>)
        ensures
            r matches Err(e) ==> (e is PoolExhausted || e is Query),
    {
        let mut params: Vec<String> = Vec::new();
        params.push(table_name.to_owned());
        match self.query_map(
            "SELECT COUNT(*) FROM sqlite_master WHERE type='table' AND name=?1",
            &params,
        ) {
            Ok(rows) => exists_result(&rows),
            Err(e) => Err(e),
        }
    }

    /// Describes the columns of a table from the engine's catalog. The
    /// catalog pragma takes no value parameters, so the table name stands
    /// in the statement text itself.
    pub fn get_table_columns(&self, table_name: &str) -> (r: Result<Vec<ColumnInfo>, DatabaseError>)
        ensures
            r matches Err(e) ==> (e is PoolExhausted || e is Query),
    {
        let sql = "PRAGMA table_info(".to_owned().concat(table_name).concat(")");
        let rows = match self.query_map(sql.as_str(), &Vec::new()) {
            Ok(rows) => rows,
            Err(e) => {
                return Err(e);
            },
        };
        parse_column_rows(&rows)
    }
}

} // verus!
