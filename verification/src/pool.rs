//! The bounded connection pool over one storage file.
//!
//! `DatabasePoolBuilder::build` validates its configuration, opens the
//! engine with concurrency-friendly settings, and probes liveness once
//! before handing the pool out. Checked-out handles are exclusively owned
//! and return to the pool on every exit path.

use vstd::prelude::*;

use crate::backend::{
    build_pool_raw, pool_capacity, pool_get, pool_get_timeout_ms, pool_share, pool_snapshot,
    query_rows_raw, sqlite_manager, DatabaseHandle, RawPool,
};
use crate::errors::DatabaseError;
use crate::sql::SqlValue;

verus! {

/// Sizing and timeout settings of the pool.
#[derive(Debug, Clone, PartialEq, Eq)]
pub struct PoolConfig {
    /// Maximum number of live handles; fixed at build time.
    pub max_connections: u32,
    /// Minimum number of idle handles the pool keeps ready.
    pub min_idle: Option<u32>,
    /// Checkout timeout in seconds.
    pub connection_timeout: u64,
    /// Idle handles older than this many seconds are evicted.
    pub idle_timeout: Option<u64>,
    /// Handles older than this many seconds are retired and replaced.
    pub max_lifetime: Option<u64>,
}

impl PoolConfig {
    /// The default settings, usable from contracts.
    pub open spec fn default_spec() -> PoolConfig {
        PoolConfig {
            max_connections: 10,
            min_idle: Some(1),
            connection_timeout: 30,
            idle_timeout: Some(600),
            max_lifetime: Some(1800),
        }
    }

    /// What the pool engine accepts without panicking: a positive capacity,
    /// positive timeouts, and a minimum idle count within the capacity.
    pub open spec fn valid(self) -> bool {
        &&& self.max_connections >= 1
    &&& self.connection_timeout >= 1
    &&& (self.min_idle matches Some(m) ==> m <= self.max_connections)
    &&& (self.idle_timeout matches Some(s) ==> s >= 1)
    &&& (self.max_lifetime matches Some(s) ==> s >= 1)
    }
}

impl Default for PoolConfig {
    /// Ten handles, one kept idle, a thirty-second checkout timeout, a
    /// ten-minute idle timeout, and a thirty-minute maximum lifetime.
    fn default() -> (r: Self)
        ensures
            r == PoolConfig::default_spec(),
            r.valid(),
    {
        PoolConfig {
            max_connections: 10,
            min_idle: Some(1),
            connection_timeout: 30,
            idle_timeout: Some(600),
            max_lifetime: Some(1800),
        }
    }
}

/// A near-real-time snapshot of the pool: handles checked out, handles
/// sitting idle, and the fixed capacity.
#[derive(Debug, Clone, Copy, PartialEq, Eq, Structural)]
pub struct PoolStats {
    /// Handles currently checked out by callers.
    pub active: u32,
    /// Handles open but idle in the pool.
    pub idle: u32,
    /// Maximum number of handles, fixed at build time.
    pub capacity: u32,
}

impl PoolStats {
    /// Utilization as a whole-number percentage of capacity; zero when the
    /// capacity is zero.
    pub fn utilization_percent(&self) -> (r: u64)
        ensures
            self.capacity >= 1 ==> r == (self.active * 100) as int / self.capacity as int,
            self.capacity == 0 ==> r == 0,
    {
        if self.capacity == 0 {
            0
        } else {
            (self.active as u64 * 100) / (self.capacity as u64)
        }
    }
}

/// The bounded pool of handles to one storage file.
pub struct DatabasePool {
    raw: RawPool,
}

/// Management operations every pool handle offers.
pub trait DatabasePoolExt {
    /// The fixed capacity of the pool behind this handle.
    spec fn capacity_spec(&self) -> u32;

    /// A snapshot of checkout counts; the capacity is the fixed one the
    /// pool was built with, and the checked-out and idle handles together
    /// never exceed it.
    fn get_pool_status(&self) -> (r: PoolStats)
        ensures
            r.active + r.idle <= r.capacity,
            r.capacity == self.capacity_spec(),
    ;

    /// One synchronous liveness probe.
    fn health_check(&self) -> (r: Result<(), DatabaseError>)
        ensures
            r matches Err(e) ==> (e is PoolExhausted || e is Query || e is Connection),
    ;
}

/// Interprets the liveness probe: it passes exactly when the engine came
/// back with the single value `1`.
pub fn probe_outcome(outcome: Result<Vec<Vec<SqlValue>>, String>) -> (r: Result<(), DatabaseError>)
    ensures
        r is Ok <==> (outcome matches Ok(rows) && rows.len() > 0 && rows[0].len() > 0
            && rows[0][0] == SqlValue::Integer(1)),
        r matches Err(e) ==> (e is Query || e is Connection),
        outcome matches Err(m) ==> r == Err::<(), DatabaseError>(DatabaseError::Query(m)),
{
    match outcome {
        Err(m) => Err(DatabaseError::Query(m)),
        Ok(rows) => {
            if crate::sql::first_cell_is_integer(&rows, 1) {
                Ok(())
            } else {
                Err(DatabaseError::Connection("liveness probe returned an unexpected result".to_owned()))
            }
        },
    }
}

impl DatabasePool {
    pub(crate) fn from_raw(raw: RawPool) -> (r: DatabasePool)
        ensures
            r.capacity_spec() == pool_capacity(raw),
    {
        DatabasePool { raw }
    }

    /// A second handle to the same pool, with the same fixed capacity.
    pub fn share(&self) -> (r: DatabasePool)
        ensures
            r.capacity_spec() == self.capacity_spec(),
    {
        DatabasePool { raw: pool_share(&self.raw) }
    }

    /// The fixed capacity the pool was built with.
    pub fn max_size(&self) -> (r: u32)
        ensures
            r == self.capacity_spec(),
    {
        pool_snapshot(&self.raw).2
    }

    /// Checks one handle out, waiting at most the configured checkout
    /// timeout; a timeout is reported as pool exhaustion.
    pub fn acquire(&self) -> (r: Result<DatabaseHandle, DatabaseError>)
        ensures
            r matches Err(e) ==> e is PoolExhausted,
    {
        match pool_get(&self.raw) {
            Ok(handle) => Ok(handle),
            Err(m) => Err(DatabaseError::PoolExhausted(m)),
        }
    }

    /// Checks one handle out, waiting at most the given number of
    /// milliseconds instead of the configured timeout.
    pub fn acquire_timeout_ms(&self, timeout_ms: u64) -> (r: Result<DatabaseHandle, DatabaseError>)
        ensures
            r matches Err(e) ==> e is PoolExhausted,
    {
        match pool_get_timeout_ms(&self.raw, timeout_ms) {
            Ok(handle) => Ok(handle),
            Err(m) => Err(DatabaseError::PoolExhausted(m)),
        }
    }
}

impl DatabasePoolExt for DatabasePool {
    /// The capacity recorded in the underlying pool's configuration.
    closed spec fn capacity_spec(&self) -> u32 {
        pool_capacity(self.raw)
    }

    fn get_pool_status(&self) -> (r: PoolStats)
        ensures
            r.active + r.idle <= r.capacity,
            r.capacity == self.capacity_spec(),
    {
        let (managed, idle, capacity) = pool_snapshot(&self.raw);
        PoolStats { active: managed - idle, idle, capacity }
    }

    fn health_check(&self) -> (r: Result<(), DatabaseError>)
        ensures
            r matches Err(e) ==> (e is PoolExhausted || e is Query || e is Connection),
    {
        let handle = match self.acquire() {
            Ok(h) => h,
            Err(e) => {
                return Err(e);
            },
        };
        probe_outcome(query_rows_raw(&handle, "SELECT 1", &Vec::new()))
    }
}

/// Builds a pool for one storage file, validating the configuration first.
#[derive(Debug, Clone, PartialEq, Eq)]
pub struct DatabasePoolBuilder {
    /// Path of the storage file.
    pub database_path: String,
    /// Pool sizing and timeouts.
    pub config: PoolConfig,
}

impl DatabasePoolBuilder {
    /// Starts from the default configuration.
    pub fn new(database_path: &str) -> (r: Self)
        ensures
            r.database_path@ == database_path@,
            r.config == PoolConfig::default_spec(),
            r.config.valid(),
    {
        DatabasePoolBuilder { database_path: database_path.to_owned(), config: PoolConfig::default() }
    }

    /// Replaces the whole configuration.
    pub fn with_config(self, config: PoolConfig) -> (r: Self)
        ensures
            r.database_path == self.database_path,
            r.config == config,
    {
        DatabasePoolBuilder { config, ..self }
    }

    /// Sets the capacity.
    pub fn max_connections(self, max_connections: u32) -> (r: Self)
        ensures
            r.database_path == self.database_path,
            r.config == (PoolConfig { max_connections, ..self.config }),
    {
        DatabasePoolBuilder {
            config: PoolConfig { max_connections, ..self.config },
            ..self
        }
    }

    /// Sets the minimum idle handle count.
    pub fn min_idle(self, min_idle: u32) -> (r: Self)
        ensures
            r.database_path == self.database_path,
            r.config == (PoolConfig { min_idle: Some(min_idle), ..self.config }),
    {
        DatabasePoolBuilder {
            config: PoolConfig { min_idle: Some(min_idle), ..self.config },
            ..self
        }
    }

    /// Sets the checkout timeout in seconds.
    pub fn connection_timeout(self, timeout_secs: u64) -> (r: Self)
        ensures
            r.database_path == self.database_path,
            r.config == (PoolConfig { connection_timeout: timeout_secs, ..self.config }),
    {
        DatabasePoolBuilder {
            config: PoolConfig { connection_timeout: timeout_secs, ..self.config },
            ..self
        }
    }

    /// Opens the engine with write-ahead logging, foreign-key enforcement,
    /// normalized durability, a bounded cache and memory temp storage, then
    /// probes liveness once. An invalid configuration or any failing step is
    /// a fatal construction error.
    pub fn build(self) -> (r: Result<DatabasePool, DatabaseError>)
        ensures
            !self.config.valid() ==> r is Err,
            r matches Ok(pool) ==> pool.capacity_spec() == self.config.max_connections,
            r matches Err(e) ==> (e is Connection || e is PoolExhausted || e is Query),
    {
        if !(self.config.max_connections >= 1 && self.config.connection_timeout >= 1
            && (match self.config.min_idle {
            Some(m) => m <= self.config.max_connections,
            None => true,
        }) && (match self.config.idle_timeout {
            Some(s) => s >= 1,
            None => true,
        }) && (match self.config.max_lifetime {
            Some(s) => s >= 1,
            None => true,
        })) {
            return Err(DatabaseError::Connection("invalid pool configuration".to_owned()));
        }
        let init_batch = "PRAGMA foreign_keys = ON;\nPRAGMA journal_mode = WAL;\nPRAGMA synchronous = NORMAL;\nPRAGMA cache_size = -64000;\nPRAGMA temp_store = MEMORY;\nPRAGMA mmap_size = 268435456;";
        let manager = sqlite_manager(self.database_path.as_str(), init_batch.to_owned());
        let raw = match build_pool_raw(
            manager,
            self.config.max_connections,
            self.config.connection_timeout,
            self.config.min_idle,
            self.config.idle_timeout,
            self.config.max_lifetime,
        ) {
            Ok(raw) => raw,
            Err(m) => {
                return Err(DatabaseError::Connection(m));
            },
        };
        let pool = DatabasePool::from_raw(raw);
        let handle = match pool.acquire() {
            Ok(h) => h,
            Err(e) => {
                return Err(e);
            },
        };
        match probe_outcome(query_rows_raw(&handle, "SELECT 1", &Vec::new())) {
            Ok(()) => Ok(pool),
            Err(e) => Err(e),
        }
    }
}

} // verus!
