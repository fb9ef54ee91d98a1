//! Plain values read back from the storage engine.
//!
//! Every query in this layer returns rows of [`SqlValue`]; the logic that
//! interprets rows (version ledgers, health probes, counters) works on these
//! plain values and is verified against them.

use vstd::prelude::*;

verus! {

/// One column of one result row. The schema this layer reads holds only
/// integers, text, and nulls.
#[derive(Debug, Clone, PartialEq, Eq)]
pub enum SqlValue {
    /// SQL NULL.
    Null,
    /// A 64-bit integer column.
    Integer(i64),
    /// A text column.
    Text(String),
}

impl SqlValue {
    /// The integer held, if this is an integer.
    pub fn as_integer(&self) -> (r: Option<i64>)
        ensures
            r == (match self {
                SqlValue::Integer(v) => Some(*v),
                _ => None::<i64>,
            }),
    {
        match self {
            SqlValue::Integer(v) => Some(*v),
            _ => None,
        }
    }

    /// A copy of the text held, if this is text.
    pub fn as_text(&self) -> (r: Option<String>)
        ensures
            r == (match self {
                SqlValue::Text(t) => Some(*t),
                _ => None::<String>,
            }),
    {
        match self {
            SqlValue::Text(t) => Some(t.clone()),
            _ => None,
        }
    }

    /// A structural copy; clones of this enum are reasoned about through it.
    pub fn duplicate(&self) -> (r: SqlValue)
        ensures
            r == *self,
    {
        match self {
            SqlValue::Null => SqlValue::Null,
            SqlValue::Integer(v) => SqlValue::Integer(*v),
            SqlValue::Text(t) => SqlValue::Text(t.clone()),
        }
    }

    /// Whether this is SQL NULL.
    pub fn is_null(&self) -> (r: bool)
        ensures
            r == (self is Null),
    {
        match self {
            SqlValue::Null => true,
            _ => false,
        }
    }
}

/// The first cell of the first row, if any: the shape of a single-value
/// query such as `SELECT COUNT(*)` or a pragma read.
pub fn first_cell(rows: &Vec<Vec<SqlValue>>) -> (r: Option<SqlValue>)
    ensures
        rows@.len() == 0 || rows@[0].len() == 0 ==> r is None,
        rows@.len() > 0 && rows@[0].len() > 0 ==> r == Some(rows@[0][0]),
{
    if rows.len() == 0 {
        None
    } else if rows[0].len() == 0 {
        None
    } else {
        Some(rows[0][0].duplicate())
    }
}

/// Whether the first cell of the first row is the integer `expected`.
pub fn first_cell_is_integer(rows: &Vec<Vec<SqlValue>>, expected: i64) -> (r: bool)
    ensures
        r == (rows@.len() > 0 && rows@[0].len() > 0 && rows@[0][0] == SqlValue::Integer(
        expected)),
{
    if rows.len() == 0 || rows[0].len() == 0 {
        false
    } else {
        match &rows[0][0] {
            SqlValue::Integer(v) => *v == expected,
            _ => false,
        }
    }
}

} // verus!
