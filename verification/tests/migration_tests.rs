//! Migration registration, application, reverting, ordering and status.

use minicrm::connection::DatabaseConnection;
use minicrm::errors::DatabaseError;
use minicrm::migrations::{decimal_string, Migration, MigrationManager};
use minicrm::pool::DatabasePoolBuilder;

fn create_test_migration_manager(dir: &tempfile::TempDir) -> MigrationManager {
    let db_path = dir.path().join("test.db").to_string_lossy().to_string();
    let pool = DatabasePoolBuilder::new(&db_path).build().unwrap();
    MigrationManager::new(DatabaseConnection::new(pool))
}

fn shared_connection(dir: &tempfile::TempDir) -> DatabaseConnection {
    let db_path = dir.path().join("test.db").to_string_lossy().to_string();
    let pool = DatabasePoolBuilder::new(&db_path).build().unwrap();
    DatabaseConnection::new(pool)
}

fn migration(version: u32, name: &str, description: &str, up_sql: &str) -> Migration {
    Migration {
        version,
        name: name.to_string(),
        up_sql: up_sql.to_string(),
        down_sql: None,
        description: description.to_string(),
    }
}

fn migration_with_down(
    version: u32,
    name: &str,
    description: &str,
    up_sql: &str,
    down_sql: &str,
) -> Migration {
    Migration {
        version,
        name: name.to_string(),
        up_sql: up_sql.to_string(),
        down_sql: Some(down_sql.to_string()),
        description: description.to_string(),
    }
}

#[test]
fn test_migration_initialization() {
    let dir = tempfile::TempDir::new().unwrap();
    let manager = create_test_migration_manager(&dir);

    manager.initialize().unwrap();

    assert_eq!(manager.get_current_version().unwrap(), 0);
}

#[test]
fn test_migration_application() {
    let dir = tempfile::TempDir::new().unwrap();
    let manager = create_test_migration_manager(&dir)
        .add_migration(migration(
            1,
            "create_users_table",
            "创建用户表",
            "CREATE TABLE users (id INTEGER PRIMARY KEY, name TEXT NOT NULL)",
        ))
        .unwrap();

    manager.migrate(None).unwrap();

    assert_eq!(manager.get_current_version().unwrap(), 1);

    let conn = shared_connection(&dir);
    assert!(conn.table_exists("users").unwrap());
}

#[test]
fn test_migration_status() {
    let dir = tempfile::TempDir::new().unwrap();
    let manager = create_test_migration_manager(&dir)
        .add_migration(migration(
            1,
            "create_users_table",
            "创建用户表",
            "CREATE TABLE users (id INTEGER PRIMARY KEY, name TEXT NOT NULL)",
        ))
        .unwrap()
        .add_migration(migration(
            2,
            "create_posts_table",
            "创建文章表",
            "CREATE TABLE posts (id INTEGER PRIMARY KEY, title TEXT NOT NULL)",
        ))
        .unwrap();

    let status = manager.get_migration_status().unwrap();
    assert_eq!(status.current_version, 0);
    assert_eq!(status.latest_version, 2);
    assert!(!status.is_up_to_date);
    assert_eq!(status.pending_migrations.len(), 2);

    manager.migrate(Some(1)).unwrap();

    let status = manager.get_migration_status().unwrap();
    assert_eq!(status.current_version, 1);
    assert!(!status.is_up_to_date);
    assert_eq!(status.pending_migrations.len(), 1);
}

#[test]
fn test_migrate_is_idempotent() {
    let dir = tempfile::TempDir::new().unwrap();
    let manager = create_test_migration_manager(&dir)
        .add_migration(migration(
            1,
            "create_users_table",
            "创建用户表",
            "CREATE TABLE users (id INTEGER PRIMARY KEY, name TEXT NOT NULL)",
        ))
        .unwrap();

    manager.migrate(None).unwrap();
    let first_version = manager.get_current_version().unwrap();
    let first_ledger = manager.get_applied_migrations().unwrap();

    manager.migrate(None).unwrap();
    let second_version = manager.get_current_version().unwrap();
    let second_ledger = manager.get_applied_migrations().unwrap();

    assert_eq!(first_version, 1);
    assert_eq!(second_version, first_version);
    assert_eq!(first_ledger, second_ledger);
    assert_eq!(second_ledger.len(), 1);
}

#[test]
fn test_migration_ordering_applies_only_new_versions() {
    let dir = tempfile::TempDir::new().unwrap();
    // Plain CREATE TABLE statements: re-applying any one of them would fail,
    // so a successful second step proves only v3 ran.
    let manager = create_test_migration_manager(&dir)
        .add_migration(migration(1, "one", "first", "CREATE TABLE t1 (id INTEGER)"))
        .unwrap()
        .add_migration(migration(2, "two", "second", "CREATE TABLE t2 (id INTEGER)"))
        .unwrap()
        .add_migration(migration(3, "three", "third", "CREATE TABLE t3 (id INTEGER)"))
        .unwrap();

    manager.migrate(Some(2)).unwrap();
    assert_eq!(manager.get_current_version().unwrap(), 2);

    manager.migrate(Some(3)).unwrap();
    assert_eq!(manager.get_current_version().unwrap(), 3);

    let ledger = manager.get_applied_migrations().unwrap();
    let versions: Vec<u32> = ledger.iter().map(|r| r.version).collect();
    assert_eq!(versions, vec![1, 2, 3]);
}

#[test]
fn test_revert_without_reverse_script_fails() {
    let dir = tempfile::TempDir::new().unwrap();
    let manager = create_test_migration_manager(&dir)
        .add_migration(migration(1, "one", "first", "CREATE TABLE t1 (id INTEGER)"))
        .unwrap();

    manager.migrate(None).unwrap();
    assert_eq!(manager.get_current_version().unwrap(), 1);

    let result = manager.migrate(Some(0));
    match result {
        Err(DatabaseError::Migration(message)) => {
            assert_eq!(message, "migration v1 has no reverse script");
        }
        other => panic!("expected a migration error, got {:?}", other),
    }

    assert_eq!(manager.get_current_version().unwrap(), 1);
}

#[test]
fn test_revert_with_reverse_script() {
    let dir = tempfile::TempDir::new().unwrap();
    let manager = create_test_migration_manager(&dir)
        .add_migration(migration_with_down(
            1,
            "one",
            "first",
            "CREATE TABLE t1 (id INTEGER)",
            "DROP TABLE t1",
        ))
        .unwrap();

    manager.migrate(None).unwrap();
    assert_eq!(manager.get_current_version().unwrap(), 1);

    manager.migrate(Some(0)).unwrap();
    assert_eq!(manager.get_current_version().unwrap(), 0);
    assert_eq!(manager.get_applied_migrations().unwrap().len(), 0);

    let conn = shared_connection(&dir);
    assert!(!conn.table_exists("t1").unwrap());
}

#[test]
fn test_duplicate_version_is_rejected() {
    let dir = tempfile::TempDir::new().unwrap();
    let manager = create_test_migration_manager(&dir)
        .add_migration(migration(1, "one", "first", "CREATE TABLE t1 (id INTEGER)"))
        .unwrap();

    let result = manager.add_migration(migration(
        1,
        "one_again",
        "duplicate",
        "CREATE TABLE t1b (id INTEGER)",
    ));
    assert!(matches!(result, Err(DatabaseError::Migration(_))));
}

#[test]
fn test_ledger_holds_one_row_per_applied_version() {
    let dir = tempfile::TempDir::new().unwrap();
    let manager = create_test_migration_manager(&dir)
        .add_migration(migration(1, "create_t", "make t", "CREATE TABLE t (id INTEGER)"))
        .unwrap();

    manager.migrate(None).unwrap();

    let conn = shared_connection(&dir);
    assert!(conn.table_exists("t").unwrap());

    let ledger = manager.get_applied_migrations().unwrap();
    assert_eq!(ledger.len(), 1);
    assert_eq!(ledger[0].version, 1);
    assert_eq!(ledger[0].name, "create_t");
    assert!(!ledger[0].applied_at.is_empty());
}

#[test]
fn test_failing_forward_script_leaves_no_ledger_row() {
    let dir = tempfile::TempDir::new().unwrap();
    let manager = create_test_migration_manager(&dir)
        .add_migration(migration(1, "broken", "will fail", "CREATE TABLE ("))
        .unwrap();

    let result = manager.migrate(None);
    assert!(result.is_err());

    assert_eq!(manager.get_current_version().unwrap(), 0);
    assert_eq!(manager.get_applied_migrations().unwrap().len(), 0);
}

#[test]
fn test_decimal_string_renders_digits() {
    assert_eq!(decimal_string(0), "0");
    assert_eq!(decimal_string(7), "7");
    assert_eq!(decimal_string(10), "10");
    assert_eq!(decimal_string(409), "409");
    assert_eq!(decimal_string(4294967295), "4294967295");
}
