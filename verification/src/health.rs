//! The health monitor.
//!
//! `check_health` runs every sub-check unconditionally — liveness, basic
//! connection, integrity, performance, storage usage — times each one, and
//! aggregates them into one report. The performance check is advisory only;
//! the others, together with pool health, decide the overall outcome.

use vstd::prelude::*;

use crate::backend::{instant_now, millis_since};
use crate::connection::{count_result, DatabaseConnection};
use crate::errors::DatabaseError;
use crate::pool::{DatabasePool, DatabasePoolExt, PoolStats};
use crate::sql::SqlValue;

verus! {

/// One named, independently timed sub-check.
#[derive(Debug, Clone, PartialEq, Eq)]
pub struct HealthCheck {
    /// Name of the sub-check.
    pub name: String,
    /// Whether it passed.
    pub passed: bool,
    /// How long it took, in milliseconds.
    pub duration_ms: u64,
    /// Detail text, if the check produced one.
    pub details: Option<String>,
    /// Error text, if the check failed.
    pub error: Option<String>,
}

/// Pool utilization and the pool-level outcome.
#[derive(Debug, Clone, PartialEq, Eq)]
pub struct PoolHealthStatus {
    /// The checkout snapshot.
    pub stats: PoolStats,
    /// Whether the pool counts as healthy: utilization below ninety percent
    /// and a passing liveness probe.
    pub healthy: bool,
    /// Utilization as a whole-number percentage of capacity.
    pub utilization_percent: u64,
}

/// A point-in-time health report: never mutated after construction.
#[derive(Debug, Clone, PartialEq, Eq)]
pub struct HealthCheckResult {
    /// The overall outcome: pool health and every gating sub-check.
    pub healthy: bool,
    /// The pool-level snapshot and outcome.
    pub pool_status: PoolHealthStatus,
    /// Total elapsed time of the whole battery, at least one millisecond.
    pub response_time_ms: u64,
    /// The sub-checks, in the order they ran.
    pub checks: Vec<HealthCheck>,
    /// On overall failure, the first failing gating sub-check's error.
    pub error: Option<String>,
}

/// Size and shape counters of the storage file.
#[derive(Debug, Clone, PartialEq, Eq)]
pub struct DatabaseStats {
    /// Number of tables in the catalog.
    pub table_count: i64,
    /// Number of indexes in the catalog.
    pub index_count: i64,
    /// Number of pages in the storage file.
    pub page_count: i64,
    /// Size of one page in bytes.
    pub page_size: i64,
    /// Computed storage size: pages times page size, saturating.
    pub database_size_bytes: i64,
}

/// Whether a probe result carries the single integer `1`.
pub open spec fn probe_rows_ok(rows: Vec<Vec<SqlValue>>) -> bool {
    rows.len() > 0 && rows[0].len() > 0 && rows[0][0] == SqlValue::Integer(1)
}

/// The computed storage size: pages times page size, zero when either
/// counter is negative.
pub open spec fn storage_size_of(page_count: int, page_size: int) -> int {
    if page_count >= 0 && page_size >= 0 {
        page_count * page_size
    } else {
        0
    }
}

/// The storage-size threshold: one gibibyte.
pub open spec fn storage_size_limit() -> int {
    0x40000000
}

/// Builds the pool sub-result from a checkout snapshot and the outcome of
/// a liveness probe: healthy exactly when utilization is below ninety
/// percent and the probe passed.
pub fn pool_health_of(stats: PoolStats, probe: Result<(), DatabaseError>) -> (r: PoolHealthStatus)
    ensures
        r.stats == stats,
        stats.capacity >= 1 ==> r.utilization_percent == (stats.active * 100) as int
            / stats.capacity as int,
        stats.capacity == 0 ==> r.utilization_percent == 0,
        r.healthy == (r.utilization_percent < 90 && probe is Ok),
{
    let utilization_percent = stats.utilization_percent();
    let healthy = utilization_percent < 90 && probe.is_ok();
    PoolHealthStatus { stats, healthy, utilization_percent }
}

/// Builds the basic-connection sub-check: it passes exactly when the
/// engine answered the probe with the single value `1`.
pub fn basic_connection_check(
    outcome: Result<Vec<Vec<SqlValue>>, DatabaseError>,
    duration_ms: u64,
) -> (r: HealthCheck)
    ensures
        r.name@ == "basic_connection"@,
        r.duration_ms == duration_ms,
        r.passed == (outcome matches Ok(rows) && probe_rows_ok(rows)),
        r.passed ==> r.error is None,
        !r.passed ==> r.error is Some,
{
    match outcome {
        Ok(rows) => {
            let passed = crate::sql::first_cell_is_integer(&rows, 1);
            HealthCheck {
                name: "basic_connection".to_owned(),
                passed,
                duration_ms,
                details: None,
                error: if passed {
                    None
                } else {
                    Some("probe returned an unexpected result".to_owned())
                },
            }
        },
        Err(e) => HealthCheck {
            name: "basic_connection".to_owned(),
            passed: false,
            duration_ms,
            details: None,
            error: Some(e.message()),
        },
    }
}

/// Whether an integrity scan came back with the canonical `ok` token.
pub open spec fn integrity_rows_ok(rows: Vec<Vec<SqlValue>>) -> bool {
    rows.len() > 0 && rows[0].len() > 0 && (rows[0][0] matches SqlValue::Text(s) && s@ == "ok"@)
}

/// Builds the integrity sub-check: it passes exactly when the scan returned
/// the canonical `ok` token; the token itself is carried as the detail, and
/// as the error when it is not the canonical one.
pub fn integrity_check_of(
    outcome: Result<Vec<Vec<SqlValue>>, DatabaseError>,
    duration_ms: u64,
) -> (r: HealthCheck)
    ensures
        r.name@ == "integrity"@,
        r.duration_ms == duration_ms,
        r.passed == (outcome matches Ok(rows) && integrity_rows_ok(rows)),
        r.passed ==> r.error is None,
        !r.passed ==> r.error is Some,
        outcome matches Ok(rows) ==> (rows.len() > 0 && rows[0].len() > 0 ==> (rows[0][0]
            matches SqlValue::Text(t) ==> (r.details == Some(t) && (t@ != "ok"@ ==> r.error
            == Some(t))))),
{
    match outcome {
        Ok(rows) => {
            let cell = crate::sql::first_cell(&rows);
            match cell {
                Some(SqlValue::Text(token)) => {
                    let ok_token = "ok".to_owned();
                    let passed = token == ok_token;
                    HealthCheck {
                        name: "integrity".to_owned(),
                        passed,
                        duration_ms,
                        details: Some(token.clone()),
                        error: if passed {
                            None
                        } else {
                            Some(token)
                        },
                    }
                },
                _ => HealthCheck {
                    name: "integrity".to_owned(),
                    passed: false,
                    duration_ms,
                    details: None,
                    error: Some("integrity scan returned an unexpected shape".to_owned()),
                },
            }
        },
        Err(e) => HealthCheck {
            name: "integrity".to_owned(),
            passed: false,
            duration_ms,
            details: None,
            error: Some(e.message()),
        },
    }
}

/// Builds the performance sub-check: a catalog count that must come back
/// within one hundred milliseconds. Advisory only: it never gates the
/// overall outcome.
pub fn performance_check_of(
    outcome: Result<Vec<Vec<SqlValue>>, DatabaseError>,
    duration_ms: u64,
) -> (r: HealthCheck)
    ensures
        r.name@ == "performance"@,
        r.duration_ms == duration_ms,
        r.passed == (duration_ms < 100 && (outcome matches Ok(rows) && rows.len() > 0 && rows[0].len()
            > 0 && rows[0][0] is Integer)),
        r.passed ==> r.error is None,
        !r.passed ==> r.error is Some,
{
    match outcome {
        Ok(rows) => {
            match count_result(&rows) {
                Ok(_) => {
                    let passed = duration_ms < 100;
                    HealthCheck {
                        name: "performance".to_owned(),
                        passed,
                        duration_ms,
                        details: None,
                        error: if passed {
                            None
                        } else {
                            Some("catalog query exceeded the latency threshold".to_owned())
                        },
                    }
                },
                Err(e) => HealthCheck {
                    name: "performance".to_owned(),
                    passed: false,
                    duration_ms,
                    details: None,
                    error: Some(e.message()),
                },
            }
        },
        Err(e) => HealthCheck {
            name: "performance".to_owned(),
            passed: false,
            duration_ms,
            details: None,
            error: Some(e.message()),
        },
    }
}

/// Builds the storage-usage sub-check from the two pragma counters: it
/// passes exactly when the computed size stays under one gibibyte; the
/// computed size, page count and page size are carried as the detail, and
/// in the error text on failure.
pub fn disk_check_of(page_count: i64, page_size: i64, duration_ms: u64) -> (r: HealthCheck)
    ensures
        r.name@ == "disk_usage"@,
        r.duration_ms == duration_ms,
        r.passed == (storage_size_of(page_count as int, page_size as int) < storage_size_limit()),
        r.details is Some,
        r.passed ==> r.error is None,
        !r.passed ==> r.error is Some,
{
    let size: i128 = if page_count >= 0 && page_size >= 0 {
        proof {
            assert((page_count as int) * (page_size as int) < 0x4000_0000_0000_0000_0000_0000_0000_0000int)
                by (nonlinear_arith)
                requires
                    0 <= page_count <= 0x7fff_ffff_ffff_ffffi64,
                    0 <= page_size <= 0x7fff_ffff_ffff_ffffi64,
            ;
        }
        (page_count as i128) * (page_size as i128)
    } else {
        0
    };
    let passed = size < 0x40000000;
    let detail = size
        .to_string()
        .concat(" bytes (")
        .concat(page_count.to_string().as_str())
        .concat(" pages, ")
        .concat(page_size.to_string().as_str())
        .concat(" bytes/page)");
    HealthCheck {
        name: "disk_usage".to_owned(),
        passed,
        duration_ms,
        details: Some(detail.clone()),
        error: if passed {
            None
        } else {
            Some("storage file exceeds the size threshold: ".to_owned().concat(detail.as_str()))
        },
    }
}

/// The first failing gating sub-check's error: the basic connection first,
/// then integrity, then storage usage.
pub open spec fn first_gating_error(
    basic: HealthCheck,
    integrity: HealthCheck,
    disk: HealthCheck,
) -> Option<String> {
    if !basic.passed {
        basic.error
    } else if !integrity.passed {
        integrity.error
    } else if !disk.passed {
        disk.error
    } else {
        None
    }
}

/// The health monitor: a connection wrapper for probes, and the pool for
/// checkout statistics.
pub struct DatabaseHealthChecker {
    connection: DatabaseConnection,
    pool: DatabasePool,
}

impl DatabaseHealthChecker {
    /// Builds a monitor over one pool.
    pub fn new(connection: DatabaseConnection, pool: DatabasePool) -> (r: Self) {
        DatabaseHealthChecker { connection, pool }
    }

    /// The pool sub-result: utilization below ninety percent and a passing
    /// liveness probe.
    pub fn check_pool_health(&self) -> (r: PoolHealthStatus)
        ensures
            r.stats.active + r.stats.idle <= r.stats.capacity,
            r.stats.capacity >= 1 ==> r.utilization_percent == (r.stats.active * 100) as int
                / r.stats.capacity as int,
            r.stats.capacity == 0 ==> r.utilization_percent == 0,
            r.healthy ==> r.utilization_percent < 90,
    {
        let stats = self.pool.get_pool_status();
        let probe = self.pool.health_check();
        pool_health_of(stats, probe)
    }

    /// Runs the whole battery: every sub-check runs unconditionally, each
    /// independently timed, and the report holds them all. Overall health
    /// is the conjunction of pool health, the basic connection, integrity,
    /// and storage usage; performance is advisory only.
    pub fn check_health(&self) -> (r: HealthCheckResult)
        ensures
            r.checks.len() == 4,
            r.checks[0].name@ == "basic_connection"@,
            r.checks[1].name@ == "integrity"@,
            r.checks[2].name@ == "performance"@,
            r.checks[3].name@ == "disk_usage"@,
            r.healthy == (r.pool_status.healthy && r.checks[0].passed && r.checks[1].passed
                && r.checks[3].passed),
            r.error == first_gating_error(r.checks[0], r.checks[1], r.checks[3]),
            r.healthy ==> r.error is None,
            r.response_time_ms >= 1,
            r.pool_status.healthy ==> r.pool_status.utilization_percent < 90,
    {
        let started = instant_now();
        let pool_status = self.check_pool_health();

        let t_basic = instant_now();
        let basic_rows = self.connection.query_map("SELECT 1", &Vec::new());
        let basic = basic_connection_check(basic_rows, millis_since(&t_basic));

        let t_integrity = instant_now();
        let integrity_rows = self.connection.query_map("PRAGMA integrity_check", &Vec::new());
        let integrity = integrity_check_of(integrity_rows, millis_since(&t_integrity));

        let t_perf = instant_now();
        let perf_rows = self.connection.query_map(
            "SELECT COUNT(*) FROM sqlite_master WHERE type='table'",
            &Vec::new(),
        );
        let performance = performance_check_of(perf_rows, millis_since(&t_perf));

        let t_disk = instant_now();
        let page_count = self.read_pragma_counter("PRAGMA page_count");
        let page_size = self.read_pragma_counter("PRAGMA page_size");
        let disk = disk_check_of(page_count, page_size, millis_since(&t_disk));

        let healthy = pool_status.healthy && basic.passed && integrity.passed && disk.passed;
        let error = if !basic.passed {
            clone_option_string(&basic.error)
        } else if !integrity.passed {
            clone_option_string(&integrity.error)
        } else if !disk.passed {
            clone_option_string(&disk.error)
        } else {
            None
        };
        let elapsed = millis_since(&started);
        let response_time_ms = if elapsed == 0 {
            1
        } else {
            elapsed
        };
        let mut checks: Vec<HealthCheck> = Vec::new();
        checks.push(basic);
        checks.push(integrity);
        checks.push(performance);
        checks.push(disk);
        HealthCheckResult { healthy, pool_status, response_time_ms, checks, error }
    }

    /// Reads one integer pragma; a failure or an unexpected shape reads as
    /// `-1`, which the storage-usage check treats as size zero.
    fn read_pragma_counter(&self, sql: &str) -> (r: i64) {
        match self.connection.query_map(sql, &Vec::new()) {
            Ok(rows) => {
                match count_result(&rows) {
                    Ok(v) => v,
                    Err(_) => -1,
                }
            },
            Err(_) => -1,
        }
    }

    /// One liveness probe mapped to a boolean: true exactly when the engine
    /// answered `1`; a failing query is an error, not a false answer.
    pub fn quick_health_check(&self) -> (r: Result<bool, DatabaseError>)
        ensures
            r matches Err(e) ==> (e is PoolExhausted || e is Query),
    {
        match self.connection.query_map("SELECT 1", &Vec::new()) {
            Ok(rows) => Ok(crate::sql::first_cell_is_integer(&rows, 1)),
            Err(e) => Err(e),
        }
    }

    /// Reads the catalog and page counters into one statistics record; the
    /// computed size is pages times page size, saturating at `i64::MAX`.
    pub fn get_database_stats(&self) -> (r: Result<DatabaseStats, DatabaseError>)
        ensures
            r matches Ok(s) ==> s.database_size_bytes == saturated_size(
                s.page_count as int,
                s.page_size as int,
            ),
            r matches Err(e) ==> (e is PoolExhausted || e is Query),
    {
        let table_count = match self.read_counter(
            "SELECT COUNT(*) FROM sqlite_master WHERE type='table'",
        ) {
            Ok(v) => v,
            Err(e) => {
                return Err(e);
            },
        };
        let index_count = match self.read_counter(
            "SELECT COUNT(*) FROM sqlite_master WHERE type='index'",
        ) {
            Ok(v) => v,
            Err(e) => {
                return Err(e);
            },
        };
        let page_count = match self.read_counter("PRAGMA page_count") {
            Ok(v) => v,
            Err(e) => {
                return Err(e);
            },
        };
        let page_size = match self.read_counter("PRAGMA page_size") {
            Ok(v) => v,
            Err(e) => {
                return Err(e);
            },
        };
        let size: i128 = if page_count >= 0 && page_size >= 0 {
            proof {
                assert((page_count as int) * (page_size as int)
                    < 0x4000_0000_0000_0000_0000_0000_0000_0000int) by (nonlinear_arith)
                    requires
                        0 <= page_count <= 0x7fff_ffff_ffff_ffffi64,
                        0 <= page_size <= 0x7fff_ffff_ffff_ffffi64,
                ;
                assert((page_count as int) * (page_size as int) >= 0) by (nonlinear_arith)
                    requires
                        page_count >= 0,
                        page_size >= 0,
                ;
            }
            (page_count as i128) * (page_size as i128)
        } else {
            0
        };
        let database_size_bytes: i64 = if size > i64::MAX as i128 {
            i64::MAX
        } else {
            size as i64
        };
        Ok(DatabaseStats { table_count, index_count, page_count, page_size, database_size_bytes })
    }

    /// Reads one integer cell, surfacing failures as errors.
    fn read_counter(&self, sql: &str) -> (r: Result<i64, DatabaseError>)
        ensures
            r matches Err(e) ==> (e is PoolExhausted || e is Query),
    {
        match self.connection.query_map(sql, &Vec::new()) {
            Ok(rows) => count_result(&rows),
            Err(e) => Err(e),
        }
    }
}

/// Pages times page size when both are nonnegative, saturating at
/// `i64::MAX`; zero otherwise.
pub open spec fn saturated_size(page_count: int, page_size: int) -> int {
    if storage_size_of(page_count, page_size) > i64::MAX {
        i64::MAX as int
    } else {
        storage_size_of(page_count, page_size)
    }
}

/// A copy of an optional error text.
fn clone_option_string(o: &Option<String>) -> (r: Option<String>)
    ensures
        r == *o,
{
    match o {
        Some(s) => Some(s.clone()),
        None => None,
    }
}

} // verus!
