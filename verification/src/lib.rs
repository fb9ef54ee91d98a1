//! Embedded-database infrastructure over a single-file SQL engine: a bounded
//! connection pool, a transactional execution wrapper, a versioned
//! schema-migration engine, and a health/diagnostics subsystem.
//!
//! The pool loans exclusive handles to one storage file; the connection
//! wrapper borrows one handle per operation and offers all-or-nothing
//! transaction scopes; the migration engine drives the schema version up or
//! down through an ordered list of scripts tracked in a persisted ledger; the
//! health monitor runs a battery of named sub-checks and aggregates them into
//! a structured report.

pub mod backend;
pub mod config;
pub mod connection;
pub mod errors;
pub mod health;
pub mod manager;
pub mod migrations;
pub mod pool;
pub mod sql;
pub mod types;

pub use crate::config::AppConfig;
pub use crate::connection::DatabaseConnection;
pub use crate::errors::DatabaseError;
pub use crate::health::DatabaseHealthChecker;
pub use crate::manager::DatabaseManager;
pub use crate::migrations::MigrationManager;
pub use crate::pool::{DatabasePool, DatabasePoolBuilder, DatabasePoolExt};
