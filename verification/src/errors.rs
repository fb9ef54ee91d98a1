//! Error kinds raised by the database infrastructure layer.

use vstd::prelude::*;

verus! {

/// One error kind for every way the layer can fail: checkout timeout,
/// broken storage handle, failing statement, empty single-row query,
/// transaction control failure, constraint violation, migration failure,
/// and a failed integrity scan.
#[derive(Debug, Clone, PartialEq, Eq)]
pub enum DatabaseError {
    /// No handle became free before the checkout timeout elapsed.
    PoolExhausted(String),
    /// The storage file could not be opened or validated.
    Connection(String),
    /// A statement failed to prepare or run.
    Query(String),
    /// A single-row query matched no rows.
    NotFound(String),
    /// A transaction could not begin, commit, or roll back.
    Transaction(String),
    /// A storage-level constraint was violated.
    Constraint(String),
    /// A schema migration could not be applied or reverted.
    Migration(String),
    /// The storage integrity scan reported damage.
    Integrity(String),
}

impl DatabaseError {
    /// The human-readable detail carried by this error.
    pub open spec fn detail(&self) -> Seq<char> {
        match self {
            DatabaseError::PoolExhausted(m) => m@,
            DatabaseError::Connection(m) => m@,
            DatabaseError::Query(m) => m@,
            DatabaseError::NotFound(m) => m@,
            DatabaseError::Transaction(m) => m@,
            DatabaseError::Constraint(m) => m@,
            DatabaseError::Migration(m) => m@,
            DatabaseError::Integrity(m) => m@,
        }
    }

    /// Builds a connection error.
    pub fn connection(message: String) -> (r: DatabaseError)
        ensures
            r == DatabaseError::Connection(message),
    {
        DatabaseError::Connection(message)
    }

    /// Builds a query error.
    pub fn query(message: String) -> (r: DatabaseError)
        ensures
            r == DatabaseError::Query(message),
    {
        DatabaseError::Query(message)
    }

    /// Builds a transaction error.
    pub fn transaction(message: String) -> (r: DatabaseError)
        ensures
            r == DatabaseError::Transaction(message),
    {
        DatabaseError::Transaction(message)
    }

    /// Builds a constraint-violation error.
    pub fn constraint(message: String) -> (r: DatabaseError)
        ensures
            r == DatabaseError::Constraint(message),
    {
        DatabaseError::Constraint(message)
    }

    /// Builds a checkout-timeout error.
    pub fn pool_exhausted(message: String) -> (r: DatabaseError)
        ensures
            r == DatabaseError::PoolExhausted(message),
    {
        DatabaseError::PoolExhausted(message)
    }

    /// Builds an empty-result error for single-row queries.
    pub fn not_found(message: String) -> (r: DatabaseError)
        ensures
            r == DatabaseError::NotFound(message),
    {
        DatabaseError::NotFound(message)
    }

    /// Builds a migration error.
    pub fn migration(message: String) -> (r: DatabaseError)
        ensures
            r == DatabaseError::Migration(message),
    {
        DatabaseError::Migration(message)
    }

    /// The detail text, for display by callers outside this layer.
    pub fn message(&self) -> (r: String)
        ensures
            r@ == self.detail(),
    {
        match self {
            DatabaseError::PoolExhausted(m) => m.clone(),
            DatabaseError::Connection(m) => m.clone(),
            DatabaseError::Query(m) => m.clone(),
            DatabaseError::NotFound(m) => m.clone(),
            DatabaseError::Transaction(m) => m.clone(),
            DatabaseError::Constraint(m) => m.clone(),
            DatabaseError::Migration(m) => m.clone(),
            DatabaseError::Integrity(m) => m.clone(),
        }
    }
}

} // verus!
