//! The database manager: construction, schema layout, stats and backup.

use minicrm::config::AppConfig;
use minicrm::connection::DatabaseConnection;
use minicrm::manager::{DatabaseManager, DatabaseStats};
use minicrm::sql::SqlValue;

fn create_test_config(dir: &tempfile::TempDir) -> AppConfig {
    let db_path = dir.path().join("test.db").to_string_lossy().to_string();
    let mut config = AppConfig::default();
    config.database.path = db_path;
    config
}

fn count_query(conn: &DatabaseConnection, sql: &str) -> i64 {
    let row = conn.query_row(sql, &Vec::new()).unwrap();
    row[0].as_integer().unwrap()
}

#[test]
fn test_database_manager_creation() {
    let dir = tempfile::TempDir::new().unwrap();
    let config = create_test_config(&dir);
    let db_manager = DatabaseManager::new(&config).unwrap();

    let health = db_manager.check_health();
    assert!(health.healthy);

    assert!(!health.checks.is_empty());

    assert!(health.pool_status.healthy);
    assert!(health.pool_status.utilization_percent < 90);
}

#[test]
fn database_test_database_stats() {
    let dir = tempfile::TempDir::new().unwrap();
    let config = create_test_config(&dir);
    let db_manager = DatabaseManager::new(&config).unwrap();

    let stats = db_manager.get_database_stats().unwrap();

    assert_eq!(stats.customer_count, 0);
    assert_eq!(stats.task_count, 0);
    assert_eq!(stats.quote_count, 0);

    assert!(stats.file_size_bytes > 0);

    let formatted_size = stats.formatted_file_size();
    assert!(formatted_size.contains("B") || formatted_size.contains("KB"));
}

#[test]
fn test_database_backup() {
    let dir = tempfile::TempDir::new().unwrap();
    let config = create_test_config(&dir);
    let db_manager = DatabaseManager::new(&config).unwrap();

    let backup_dir = tempfile::TempDir::new().unwrap();
    let backup_path = backup_dir.path().join("backup.db").to_string_lossy().to_string();

    db_manager.backup_database(&backup_path).unwrap();

    // The backup is a complete store of its own: opening it and finding the
    // base tables proves the file exists and holds the schema.
    let backup = rusqlite::Connection::open(&backup_path).unwrap();
    let tables: i64 = backup
        .query_row(
            "SELECT COUNT(*) FROM sqlite_master WHERE type='table'",
            [],
            |row| row.get(0),
        )
        .unwrap();
    assert!(tables >= 3);
}

#[test]
fn database_test_database_initialization() {
    let dir = tempfile::TempDir::new().unwrap();
    let config = create_test_config(&dir);
    let db_manager = DatabaseManager::new(&config).unwrap();

    let conn = DatabaseConnection::new(db_manager.pool().share());

    let customer_table_exists = count_query(
        &conn,
        "SELECT COUNT(*) FROM sqlite_master WHERE type='table' AND name='customers'",
    ) > 0;
    assert!(customer_table_exists);

    let task_table_exists = count_query(
        &conn,
        "SELECT COUNT(*) FROM sqlite_master WHERE type='table' AND name='tasks'",
    ) > 0;
    assert!(task_table_exists);

    let quote_table_exists = count_query(
        &conn,
        "SELECT COUNT(*) FROM sqlite_master WHERE type='table' AND name='quotes'",
    ) > 0;
    assert!(quote_table_exists);
}

#[test]
fn database_integration_test_database_initialization() {
    let dir = tempfile::TempDir::new().unwrap();
    let config = create_test_config(&dir);

    let db_manager = DatabaseManager::new(&config).unwrap();

    let health = db_manager.check_health();
    assert!(health.healthy, "health check failed: {:?}", health.error);

    let conn = DatabaseConnection::new(db_manager.pool().share());
    let row = conn.query_row("SELECT 1", &Vec::new()).unwrap();
    assert_eq!(row[0], SqlValue::Integer(1));
}

#[test]
fn test_connection_pool() {
    let dir = tempfile::TempDir::new().unwrap();
    let config = create_test_config(&dir);

    let db_manager = DatabaseManager::new(&config).unwrap();
    let pool = db_manager.pool();

    for i in 0..5 {
        let shared = pool.share();
        let conn = DatabaseConnection::new(shared);
        let row = conn
            .query_row("SELECT ?1", &vec![format!("{}", i)])
            .unwrap();
        assert_eq!(row[0], SqlValue::Text(format!("{}", i)));
    }
}

#[test]
fn test_database_path_is_kept() {
    let dir = tempfile::TempDir::new().unwrap();
    let config = create_test_config(&dir);
    let db_manager = DatabaseManager::new(&config).unwrap();

    assert_eq!(db_manager.database_path(), config.database.path.as_str());
}

#[test]
fn test_formatted_file_size_units() {
    let stats = |bytes: u64| DatabaseStats {
        customer_count: 0,
        task_count: 0,
        quote_count: 0,
        file_size_bytes: bytes,
    };
    assert_eq!(stats(512).formatted_file_size(), "512.00 B");
    assert_eq!(stats(2048).formatted_file_size(), "2.00 KB");
    assert_eq!(stats(1536).formatted_file_size(), "1.50 KB");
    assert_eq!(stats(3 * 1024 * 1024).formatted_file_size(), "3.00 MB");
    assert_eq!(stats(5 * 1024 * 1024 * 1024).formatted_file_size(), "5.00 GB");
}
