//! Statement execution, queries, and transaction scopes.

use minicrm::connection::{DatabaseConnection, TransactionHandle};
use minicrm::errors::DatabaseError;
use minicrm::pool::DatabasePoolBuilder;
use minicrm::sql::SqlValue;

fn create_test_connection(dir: &tempfile::TempDir) -> DatabaseConnection {
    let db_path = dir.path().join("test.db").to_string_lossy().to_string();
    let pool = DatabasePoolBuilder::new(&db_path).build().unwrap();
    DatabaseConnection::new(pool)
}

fn count_of(conn: &DatabaseConnection, sql: &str) -> i64 {
    let row = conn.query_row(sql, &Vec::new()).unwrap();
    row[0].as_integer().unwrap()
}

#[test]
fn test_execute_sql() {
    let dir = tempfile::TempDir::new().unwrap();
    let conn = create_test_connection(&dir);

    let affected = conn
        .execute(
            "CREATE TABLE test_table (id INTEGER PRIMARY KEY, name TEXT)",
            &Vec::new(),
        )
        .unwrap();

    assert_eq!(affected, 0);
}

#[test]
fn test_transaction() {
    let dir = tempfile::TempDir::new().unwrap();
    let conn = create_test_connection(&dir);

    conn.execute(
        "CREATE TABLE test_table (id INTEGER PRIMARY KEY, name TEXT)",
        &Vec::new(),
    )
    .unwrap();

    let result = conn.with_transaction(|tx: &TransactionHandle| {
        tx.execute("INSERT INTO test_table (name) VALUES (?1)", &vec!["test1".to_string()])?;
        tx.execute("INSERT INTO test_table (name) VALUES (?1)", &vec!["test2".to_string()])?;
        Ok(())
    });

    assert!(result.is_ok());

    let count = count_of(&conn, "SELECT COUNT(*) FROM test_table");
    assert_eq!(count, 2);
}

#[test]
fn test_table_exists() {
    let dir = tempfile::TempDir::new().unwrap();
    let conn = create_test_connection(&dir);

    assert!(!conn.table_exists("non_existent_table").unwrap());

    conn.execute("CREATE TABLE test_table (id INTEGER PRIMARY KEY)", &Vec::new())
        .unwrap();

    assert!(conn.table_exists("test_table").unwrap());
}

#[test]
fn test_transaction_rolls_back_partial_writes() {
    let dir = tempfile::TempDir::new().unwrap();
    let conn = create_test_connection(&dir);

    conn.execute(
        "CREATE TABLE test_table (id INTEGER PRIMARY KEY, name TEXT)",
        &Vec::new(),
    )
    .unwrap();
    conn.execute(
        "INSERT INTO test_table (name) VALUES (?1)",
        &vec!["before".to_string()],
    )
    .unwrap();

    let result: Result<(), DatabaseError> = conn.with_transaction(|tx: &TransactionHandle| {
        tx.execute("INSERT INTO test_table (name) VALUES (?1)", &vec!["partial".to_string()])?;
        Err(DatabaseError::Query("forced failure".to_string()))
    });

    match result {
        Err(DatabaseError::Query(message)) => assert_eq!(message, "forced failure"),
        other => panic!("the body's own error must propagate, got {:?}", other),
    }

    let count = count_of(&conn, "SELECT COUNT(*) FROM test_table");
    assert_eq!(count, 1);
}

#[test]
fn test_read_transaction_reads() {
    let dir = tempfile::TempDir::new().unwrap();
    let conn = create_test_connection(&dir);

    conn.execute("CREATE TABLE test_table (id INTEGER PRIMARY KEY)", &Vec::new())
        .unwrap();
    conn.execute("INSERT INTO test_table (id) VALUES (7)", &Vec::new())
        .unwrap();

    let rows = conn
        .with_read_transaction(|tx: &TransactionHandle| {
            tx.query_rows("SELECT id FROM test_table", &Vec::new())
        })
        .unwrap();
    assert_eq!(rows.len(), 1);
    assert_eq!(rows[0][0], SqlValue::Integer(7));
}

#[test]
fn test_read_transaction_refuses_writes() {
    let dir = tempfile::TempDir::new().unwrap();
    let conn = create_test_connection(&dir);

    conn.execute("CREATE TABLE test_table (id INTEGER PRIMARY KEY)", &Vec::new())
        .unwrap();

    let result = conn.with_read_transaction(|tx: &TransactionHandle| {
        tx.execute("INSERT INTO test_table (id) VALUES (1)", &Vec::new())
    });
    assert!(matches!(result, Err(DatabaseError::Query(_))));

    let count = count_of(&conn, "SELECT COUNT(*) FROM test_table");
    assert_eq!(count, 0);
}

#[test]
fn test_query_row_not_found() {
    let dir = tempfile::TempDir::new().unwrap();
    let conn = create_test_connection(&dir);

    conn.execute("CREATE TABLE test_table (id INTEGER PRIMARY KEY)", &Vec::new())
        .unwrap();

    let result = conn.query_row("SELECT id FROM test_table", &Vec::new());
    assert!(matches!(result, Err(DatabaseError::NotFound(_))));
}

#[test]
fn test_execute_bad_sql_is_query_error() {
    let dir = tempfile::TempDir::new().unwrap();
    let conn = create_test_connection(&dir);

    let result = conn.execute("NOT A STATEMENT", &Vec::new());
    assert!(matches!(result, Err(DatabaseError::Query(_))));
}

#[test]
fn test_query_map_round_trips_values() {
    let dir = tempfile::TempDir::new().unwrap();
    let conn = create_test_connection(&dir);

    conn.execute(
        "CREATE TABLE kv (k TEXT NOT NULL, v INTEGER)",
        &Vec::new(),
    )
    .unwrap();
    conn.execute(
        "INSERT INTO kv (k, v) VALUES (?1, ?2)",
        &vec!["alpha".to_string(), "41".to_string()],
    )
    .unwrap();
    conn.execute("INSERT INTO kv (k, v) VALUES ('beta', NULL)", &Vec::new())
        .unwrap();

    let rows = conn
        .query_map("SELECT k, v FROM kv ORDER BY k", &Vec::new())
        .unwrap();
    assert_eq!(rows.len(), 2);
    assert_eq!(rows[0][0], SqlValue::Text("alpha".to_string()));
    assert_eq!(rows[0][1], SqlValue::Integer(41));
    assert_eq!(rows[1][0], SqlValue::Text("beta".to_string()));
    assert_eq!(rows[1][1], SqlValue::Null);
}

#[test]
fn test_get_table_columns() {
    let dir = tempfile::TempDir::new().unwrap();
    let conn = create_test_connection(&dir);

    conn.execute(
        "CREATE TABLE described (id INTEGER PRIMARY KEY, label TEXT NOT NULL, note TEXT)",
        &Vec::new(),
    )
    .unwrap();

    let columns = conn.get_table_columns("described").unwrap();
    assert_eq!(columns.len(), 3);
    assert_eq!(columns[0].name, "id");
    assert!(columns[0].primary_key);
    assert_eq!(columns[1].name, "label");
    assert_eq!(columns[1].data_type, "TEXT");
    assert!(columns[1].not_null);
    assert!(!columns[2].not_null);
    assert!(!columns[2].primary_key);
}
