//! The database manager handed to bootstrap: builds the pool from the
//! application configuration, lays out the base schema, and answers health
//! and statistics queries.
//!
//! The caller is responsible for the storage directory existing; everything
//! else — pool construction, schema layout, the liveness probe — happens
//! here, and a failure at any step is a fatal construction error.

use vstd::prelude::*;

use crate::backend::{exec_raw, render_size, rendered_size, DatabaseHandle};
use crate::config::AppConfig;
use crate::connection::DatabaseConnection;
use crate::errors::DatabaseError;
use crate::health::{DatabaseHealthChecker, HealthCheckResult};
use crate::pool::{DatabasePool, DatabasePoolBuilder, DatabasePoolExt};

verus! {

/// Row counts of the base tables, and the computed storage size.
#[derive(Debug, Clone, PartialEq, Eq)]
pub struct DatabaseStats {
    /// Rows in the customers table.
    pub customer_count: u64,
    /// Rows in the tasks table.
    pub task_count: u64,
    /// Rows in the quotes table.
    pub quote_count: u64,
    /// Computed storage size in bytes: pages times page size.
    pub file_size_bytes: u64,
}

/// The divisor of the binary unit a size is shown in: bytes under one
/// kibibyte, then kibibytes, mebibytes, and gibibytes from one gibibyte on.
pub open spec fn unit_divisor(size: u64) -> u64 {
    if size < 1024 {
        1u64
    } else if size < 0x100000 {
        1024u64
    } else if size < 0x40000000 {
        0x100000u64
    } else {
        0x40000000u64
    }
}

/// The symbol of that unit.
pub open spec fn unit_symbol(size: u64) -> Seq<char> {
    if size < 1024 {
        "B"@
    } else if size < 0x100000 {
        "KB"@
    } else if size < 0x40000000 {
        "MB"@
    } else {
        "GB"@
    }
}

impl DatabaseStats {
    /// The storage size as text with a binary unit, two decimals: the size
    /// divided by the unit's divisor, its remainder scaled to hundredths,
    /// rendered by the formatter.
    pub fn formatted_file_size(&self) -> (r: String)
        ensures
            r@ == rendered_size(
                (self.file_size_bytes / unit_divisor(self.file_size_bytes)) as u64,
                (((self.file_size_bytes % unit_divisor(self.file_size_bytes)) as int * 100) / (
                unit_divisor(self.file_size_bytes) as int)) as u64,
                unit_symbol(self.file_size_bytes),
            ),
    {
        let size = self.file_size_bytes;
        let mut unit: u32 = 0;
        let mut divisor: u64 = 1;
        while size / divisor >= 1024 && unit < 3
            invariant
                unit <= 3,
                unit == 0 ==> divisor == 1,
                unit == 1 ==> divisor == 1024,
                unit == 2 ==> divisor == 0x100000,
                unit == 3 ==> divisor == 0x40000000,
                unit >= 1 ==> size >= 1024,
                unit >= 2 ==> size >= 0x100000,
                unit >= 3 ==> size >= 0x40000000,
            decreases 3 - unit,
        {
            divisor = divisor * 1024;
            unit = unit + 1;
        }
        proof {
            assert(divisor == unit_divisor(size) && (if unit == 0 {
                "B"@
            } else if unit == 1 {
                "KB"@
            } else if unit == 2 {
                "MB"@
            } else {
                "GB"@
            }) == unit_symbol(size)) by {
                if unit < 3 {
                    assert(size / divisor < 1024);
                    vstd::arithmetic::div_mod::lemma_fundamental_div_mod(
                        size as int,
                        divisor as int,
                    );
                }
            }
        }
        let unit_name: &str = if unit == 0 {
            "B"
        } else if unit == 1 {
            "KB"
        } else if unit == 2 {
            "MB"
        } else {
            "GB"
        };
        let whole = size / divisor;
        let hundredths = (size % divisor) * 100 / divisor;
        render_size(whole, hundredths, unit_name)
    }
}

/// Owns the pool and the storage path on behalf of bootstrap.
pub struct DatabaseManager {
    pool: DatabasePool,
    database_path: String,
}

impl DatabaseManager {
    /// The storage path, for contracts.
    pub closed spec fn path_view(&self) -> Seq<char> {
        self.database_path@
    }

    /// The fixed capacity of the manager's pool, for contracts.
    pub closed spec fn capacity_spec(&self) -> u32 {
        self.pool.capacity_spec()
    }

    /// Builds the pool from the configuration, lays the base schema out
    /// (idempotently), and probes liveness once. The parent directory of
    /// the storage path must already exist.
    pub fn new(config: &AppConfig) -> (r: Result<Self, DatabaseError>)
        ensures
            r matches Ok(m) ==> m.path_view() == config.database.path@ && m.capacity_spec()
                == config.database.max_connections,
            r matches Err(e) ==> (e is Connection || e is PoolExhausted || e is Query),
    {
        let pool = match DatabasePoolBuilder::new(
            config.database.path.as_str(),
        ).max_connections(config.database.max_connections).connection_timeout(
            config.database.connection_timeout,
        ).build() {
            Ok(p) => p,
            Err(e) => {
                return Err(e);
            },
        };
        let manager = DatabaseManager { pool, database_path: config.database.path.clone() };
        if let Err(e) = manager.initialize_database() {
            return Err(e);
        }
        if let Err(e) = manager.pool.health_check() {
            return Err(e);
        }
        Ok(manager)
    }

    /// The pool, for callers that need handles directly.
    pub fn pool(&self) -> (r: &DatabasePool)
        ensures
            r.capacity_spec() == self.capacity_spec(),
    {
        &self.pool
    }

    /// The storage path.
    pub fn database_path(&self) -> (r: &str)
        ensures
            r@ == self.path_view(),
    {
        self.database_path.as_str()
    }

    /// Runs the full health battery over this manager's pool.
    pub fn check_health(&self) -> (r: HealthCheckResult)
        ensures
            r.checks.len() == 4,
            r.response_time_ms >= 1,
            r.healthy == (r.pool_status.healthy && r.checks[0].passed && r.checks[1].passed
                && r.checks[3].passed),
            r.healthy ==> r.error is None,
    {
        let connection = DatabaseConnection::new(self.pool.share());
        let checker = DatabaseHealthChecker::new(connection, self.pool.share());
        checker.check_health()
    }

    /// Lays out the base schema: the customers, tasks and quotes tables and
    /// their indexes, all `IF NOT EXISTS`, so running it twice is harmless.
    fn initialize_database(&self) -> (r: Result<(), DatabaseError>)
        ensures
            r matches Err(e) ==> (e is PoolExhausted || e is Query),
    {
        let conn = match self.pool.acquire() {
            Ok(c) => c,
            Err(e) => {
                return Err(e);
            },
        };
        let statements: [&str; 4] = [
            "PRAGMA foreign_keys = ON",
            "CREATE TABLE IF NOT EXISTS customers (\n    id TEXT PRIMARY KEY,\n    name TEXT NOT NULL,\n    company TEXT,\n    email TEXT,\n    phone TEXT,\n    address TEXT,\n    notes TEXT,\n    created_at TEXT NOT NULL,\n    updated_at TEXT NOT NULL\n)",
            "CREATE TABLE IF NOT EXISTS tasks (\n    id TEXT PRIMARY KEY,\n    customer_id TEXT NOT NULL,\n    title TEXT NOT NULL,\n    description TEXT,\n    status TEXT NOT NULL DEFAULT 'pending',\n    priority TEXT NOT NULL DEFAULT 'medium',\n    due_date TEXT,\n    completed_at TEXT,\n    created_at TEXT NOT NULL,\n    updated_at TEXT NOT NULL,\n    FOREIGN KEY (customer_id) REFERENCES customers (id) ON DELETE CASCADE\n)",
            "CREATE TABLE IF NOT EXISTS quotes (\n    id TEXT PRIMARY KEY,\n    customer_id TEXT NOT NULL,\n    title TEXT NOT NULL,\n    description TEXT,\n    total_amount REAL NOT NULL,\n    currency TEXT NOT NULL DEFAULT 'CNY',\n    status TEXT NOT NULL DEFAULT 'draft',\n    valid_until TEXT,\n    created_at TEXT NOT NULL,\n    updated_at TEXT NOT NULL,\n    FOREIGN KEY (customer_id) REFERENCES customers (id) ON DELETE CASCADE\n)",
        ];
        let mut i: usize = 0;
        while i < 4
            invariant
                i <= 4,
            decreases 4 - i,
        {
            if let Err(m) = exec_raw(&conn, statements[i], &Vec::new()) {
                return Err(DatabaseError::Query(m));
            }
            i += 1;
        }
        self.create_indexes(&conn)
    }

    /// Creates the secondary indexes, all `IF NOT EXISTS`.
    fn create_indexes(&self, conn: &DatabaseHandle) -> (r: Result<(), DatabaseError>)
        ensures
            r matches Err(e) ==> e is Query,
    {
        let indexes: [&str; 7] = [
            "CREATE INDEX IF NOT EXISTS idx_customers_email ON customers(email)",
            "CREATE INDEX IF NOT EXISTS idx_customers_company ON customers(company)",
            "CREATE INDEX IF NOT EXISTS idx_tasks_customer_id ON tasks(customer_id)",
            "CREATE INDEX IF NOT EXISTS idx_tasks_status ON tasks(status)",
            "CREATE INDEX IF NOT EXISTS idx_tasks_due_date ON tasks(due_date)",
            "CREATE INDEX IF NOT EXISTS idx_quotes_customer_id ON quotes(customer_id)",
            "CREATE INDEX IF NOT EXISTS idx_quotes_status ON quotes(status)",
        ];
        let mut i: usize = 0;
        while i < 7
            invariant
                i <= 7,
            decreases 7 - i,
        {
            if let Err(m) = exec_raw(conn, indexes[i], &Vec::new()) {
                return Err(DatabaseError::Query(m));
            }
            i += 1;
        }
        Ok(())
    }

    /// Copies the whole store into one new file at the given path, whose
    /// parent directory must already exist.
    pub fn backup_database(&self, backup_path: &str) -> (r: Result<(), DatabaseError>)
        ensures
            r matches Err(e) ==> (e is PoolExhausted || e is Query),
    {
        let connection = DatabaseConnection::new(self.pool.share());
        let mut params: Vec<String> = Vec::new();
        params.push(backup_path.to_owned());
        match connection.execute("VACUUM INTO ?1", &params) {
            Ok(_) => Ok(()),
            Err(e) => Err(e),
        }
    }

    /// Counts the rows of the base tables and computes the storage size
    /// from the page counters.
    pub fn get_database_stats(&self) -> (r: Result<DatabaseStats, DatabaseError>)
        ensures
            r matches Err(e) ==> (e is PoolExhausted || e is Query),
    {
        let connection = DatabaseConnection::new(self.pool.share());
        let checker = DatabaseHealthChecker::new(connection.share(), self.pool.share());
        let customer_count = match self.count_rows(&connection, "SELECT COUNT(*) FROM customers") {
            Ok(v) => v,
            Err(e) => {
                return Err(e);
            },
        };
        let task_count = match self.count_rows(&connection, "SELECT COUNT(*) FROM tasks") {
            Ok(v) => v,
            Err(e) => {
                return Err(e);
            },
        };
        let quote_count = match self.count_rows(&connection, "SELECT COUNT(*) FROM quotes") {
            Ok(v) => v,
            Err(e) => {
                return Err(e);
            },
        };
        let engine_stats = match checker.get_database_stats() {
            Ok(s) => s,
            Err(e) => {
                return Err(e);
            },
        };
        let file_size_bytes: u64 = if engine_stats.database_size_bytes >= 0 {
            engine_stats.database_size_bytes as u64
        } else {
            0
        };
        Ok(DatabaseStats { customer_count, task_count, quote_count, file_size_bytes })
    }

    /// One nonnegative row count: the answer of
    /// [`crate::connection::nonnegative_count`] on the counting query's
    /// rows, handed through unchanged.
    fn count_rows(&self, connection: &DatabaseConnection, sql: &str) -> (r: Result<
        u64,
        DatabaseError,
    >)
        ensures
            r matches Err(e) ==> (e is PoolExhausted || e is Query),
    {
        match connection.query_map(sql, &Vec::new()) {
            Ok(rows) => crate::connection::nonnegative_count(&rows),
            Err(e) => Err(e),
        }
    }
}

} // verus!
