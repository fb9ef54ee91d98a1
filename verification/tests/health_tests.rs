//! The health battery on a freshly built store.

use minicrm::connection::DatabaseConnection;
use minicrm::health::DatabaseHealthChecker;
use minicrm::pool::DatabasePoolBuilder;

fn create_test_health_checker(dir: &tempfile::TempDir) -> DatabaseHealthChecker {
    let db_path = dir.path().join("test.db").to_string_lossy().to_string();
    let pool = DatabasePoolBuilder::new(&db_path).build().unwrap();
    let connection = DatabaseConnection::new(pool.share());
    DatabaseHealthChecker::new(connection, pool)
}

#[test]
fn test_health_check() {
    let dir = tempfile::TempDir::new().unwrap();
    let checker = create_test_health_checker(&dir);

    let result = checker.check_health();

    assert!(result.healthy);
    assert!(result.response_time_ms > 0);
    assert!(!result.checks.is_empty());
}

#[test]
fn test_health_check_report_shape() {
    let dir = tempfile::TempDir::new().unwrap();
    let checker = create_test_health_checker(&dir);

    let result = checker.check_health();

    assert_eq!(result.checks.len(), 4);
    assert_eq!(result.checks[0].name, "basic_connection");
    assert_eq!(result.checks[1].name, "integrity");
    assert_eq!(result.checks[2].name, "performance");
    assert_eq!(result.checks[3].name, "disk_usage");
    assert!(result.checks[0].passed);
    assert!(result.checks[1].passed);
    assert!(result.checks[3].passed);
    assert!(result.pool_status.healthy);
    assert!(result.pool_status.utilization_percent < 90);
    assert!(result.error.is_none());
}

#[test]
fn test_quick_health_check() {
    let dir = tempfile::TempDir::new().unwrap();
    let checker = create_test_health_checker(&dir);

    let result = checker.quick_health_check().unwrap();
    assert!(result);
}

#[test]
fn health_test_database_stats() {
    let dir = tempfile::TempDir::new().unwrap();
    let checker = create_test_health_checker(&dir);

    let stats = checker.get_database_stats().unwrap();

    assert!(stats.page_count > 0);
    assert!(stats.page_size > 0);
    assert!(stats.database_size_bytes > 0);
}
