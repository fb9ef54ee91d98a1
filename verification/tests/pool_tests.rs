//! Pool construction, configuration, checkout and exhaustion behaviour.

use minicrm::errors::DatabaseError;
use minicrm::pool::{DatabasePoolBuilder, DatabasePoolExt, PoolConfig};
use minicrm::connection::DatabaseConnection;
use minicrm::health::DatabaseHealthChecker;
use minicrm::sql::SqlValue;

fn temp_db_path(dir: &tempfile::TempDir) -> String {
    dir.path().join("test.db").to_string_lossy().to_string()
}

#[test]
fn test_pool_config_default() {
    let config = PoolConfig::default();
    assert_eq!(config.max_connections, 10);
    assert_eq!(config.min_idle, Some(1));
    assert_eq!(config.connection_timeout, 30);
}

#[test]
fn test_database_pool_builder() {
    let dir = tempfile::TempDir::new().unwrap();
    let db_path = temp_db_path(&dir);

    let pool = DatabasePoolBuilder::new(&db_path)
        .max_connections(5)
        .min_idle(1)
        .connection_timeout(10)
        .build()
        .unwrap();

    assert_eq!(pool.max_size(), 5);

    let conn = DatabaseConnection::new(pool.share());
    let row = conn.query_row("SELECT 1", &Vec::new()).unwrap();
    assert_eq!(row[0], SqlValue::Integer(1));
}

#[test]
fn test_pool_health_check() {
    let dir = tempfile::TempDir::new().unwrap();
    let db_path = temp_db_path(&dir);

    let pool = DatabasePoolBuilder::new(&db_path).build().unwrap();

    pool.health_check().unwrap();

    let checker = DatabaseHealthChecker::new(DatabaseConnection::new(pool.share()), pool.share());
    let health = checker.check_health();
    assert!(health.healthy);
    assert!(!health.checks.is_empty());
}

#[test]
fn test_pool_status() {
    let dir = tempfile::TempDir::new().unwrap();
    let db_path = temp_db_path(&dir);

    let pool = DatabasePoolBuilder::new(&db_path).max_connections(5).build().unwrap();

    let status = pool.get_pool_status();
    assert_eq!(status.capacity, 5);
    assert!(status.active + status.idle <= status.capacity);
    assert!(status.utilization_percent() <= 100);
}

#[test]
fn test_pool_with_config() {
    let dir = tempfile::TempDir::new().unwrap();
    let db_path = temp_db_path(&dir);

    let config = PoolConfig {
        max_connections: 3,
        min_idle: Some(1),
        connection_timeout: 15,
        idle_timeout: Some(300),
        max_lifetime: Some(900),
    };

    let pool = DatabasePoolBuilder::new(&db_path).with_config(config).build().unwrap();

    assert_eq!(pool.max_size(), 3);

    let conn = DatabaseConnection::new(pool.share());
    conn.execute("CREATE TABLE IF NOT EXISTS test (id INTEGER)", &Vec::new()).unwrap();
}

#[test]
fn test_build_rejects_invalid_config() {
    let dir = tempfile::TempDir::new().unwrap();
    let db_path = temp_db_path(&dir);

    let result = DatabasePoolBuilder::new(&db_path).max_connections(0).build();
    assert!(matches!(result, Err(DatabaseError::Connection(_))));
}

#[test]
fn test_stats_while_handle_held() {
    let dir = tempfile::TempDir::new().unwrap();
    let db_path = temp_db_path(&dir);

    let pool = DatabasePoolBuilder::new(&db_path).max_connections(2).build().unwrap();

    let held = pool.acquire().unwrap();
    let status = pool.get_pool_status();
    assert!(status.active >= 1);
    assert!(status.active <= status.capacity);
    drop(held);
}

#[test]
fn test_acquire_times_out_when_exhausted() {
    let dir = tempfile::TempDir::new().unwrap();
    let db_path = temp_db_path(&dir);

    let pool = DatabasePoolBuilder::new(&db_path).max_connections(1).build().unwrap();

    let held = pool.acquire().unwrap();
    let started = std::time::Instant::now();
    let second = pool.acquire_timeout_ms(50);
    let elapsed = started.elapsed();
    assert!(matches!(second, Err(DatabaseError::PoolExhausted(_))));
    assert!(elapsed.as_millis() >= 45, "timed out too early: {:?}", elapsed);
    assert!(elapsed.as_millis() < 1000, "timed out too late: {:?}", elapsed);
    drop(held);
}
