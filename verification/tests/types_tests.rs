//! Pagination arithmetic, sort keys, plain SQL values, errors and
//! configuration defaults.

use minicrm::config::AppConfig;
use minicrm::errors::DatabaseError;
use minicrm::sql::SqlValue;
use minicrm::types::{PagedResult, Pagination, SortBy, SortDirection};

#[test]
fn test_pagination_offset_and_limit() {
    let p = Pagination::new(1, 20);
    assert_eq!(p.offset(), 0);
    assert_eq!(p.limit(), 20);

    let p = Pagination::new(3, 25);
    assert_eq!(p.offset(), 50);
    assert_eq!(p.limit(), 25);
}

#[test]
fn test_pagination_default() {
    let p = Pagination::default();
    assert_eq!(p.page, 1);
    assert_eq!(p.page_size, 20);
}

#[test]
fn test_paged_result_counts_pages() {
    let p = Pagination::new(1, 10);
    let r: PagedResult<u32> = PagedResult::new(vec![1, 2, 3], 35, &p);
    assert_eq!(r.total_pages, 4);
    assert_eq!(r.total, 35);
    assert!(r.has_next());
    assert!(!r.has_previous());

    let r: PagedResult<u32> = PagedResult::new(Vec::new(), 0, &p);
    assert_eq!(r.total_pages, 0);
    assert!(!r.has_next());

    let r: PagedResult<u32> = PagedResult::new(Vec::new(), 30, &p);
    assert_eq!(r.total_pages, 3);
}

#[test]
fn test_paged_result_navigation() {
    let p = Pagination::new(2, 10);
    let r: PagedResult<u32> = PagedResult::new(Vec::new(), 30, &p);
    assert!(r.has_next());
    assert!(r.has_previous());

    let p = Pagination::new(3, 10);
    let r: PagedResult<u32> = PagedResult::new(Vec::new(), 30, &p);
    assert!(!r.has_next());
    assert!(r.has_previous());
}

#[test]
fn test_sort_by_builders() {
    let s = SortBy::new("name".to_string(), SortDirection::Desc);
    assert_eq!(s.field, "name");
    assert_eq!(s.direction, SortDirection::Desc);

    let s = SortBy::asc("created_at".to_string());
    assert_eq!(s.direction, SortDirection::Asc);

    let s = SortBy::desc("updated_at".to_string());
    assert_eq!(s.direction, SortDirection::Desc);
}

#[test]
fn test_error_constructors() {
    let e = DatabaseError::connection("cannot open".to_string());
    assert!(matches!(e, DatabaseError::Connection(_)));
    assert_eq!(e.message(), "cannot open");

    let e = DatabaseError::query("bad sql".to_string());
    assert!(matches!(e, DatabaseError::Query(_)));
    assert_eq!(e.message(), "bad sql");

    let e = DatabaseError::transaction("commit failed".to_string());
    assert!(matches!(e, DatabaseError::Transaction(_)));
    assert_eq!(e.message(), "commit failed");

    let e = DatabaseError::constraint("unique violated".to_string());
    assert!(matches!(e, DatabaseError::Constraint(_)));
    assert_eq!(e.message(), "unique violated");

    let e = DatabaseError::pool_exhausted("timed out".to_string());
    assert!(matches!(e, DatabaseError::PoolExhausted(_)));

    let e = DatabaseError::not_found("no row".to_string());
    assert!(matches!(e, DatabaseError::NotFound(_)));

    let e = DatabaseError::migration("no reverse script".to_string());
    assert!(matches!(e, DatabaseError::Migration(_)));
}

#[test]
fn test_app_config_load_defaults() {
    let config = AppConfig::load().unwrap();
    assert_eq!(config.database.path, "data/minicrm.db");
    assert_eq!(config.database.max_connections, 10);
    assert_eq!(config.database.connection_timeout, 30);
    assert_eq!(config.logging.level, "info");
}

#[test]
fn test_sql_value_accessors() {
    let v = SqlValue::Integer(42);
    assert_eq!(v.as_integer(), Some(42));
    assert_eq!(v.as_text(), None);
    assert!(!v.is_null());

    let v = SqlValue::Text("hello".to_string());
    assert_eq!(v.as_integer(), None);
    assert_eq!(v.as_text(), Some("hello".to_string()));
    assert!(!v.is_null());

    let v = SqlValue::Null;
    assert!(v.is_null());
    assert_eq!(v.as_integer(), None);
    assert_eq!(v.as_text(), None);
}
