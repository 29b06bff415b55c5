//! The arguments of one execution, grouped by the part of the statement they feed.
use vstd::prelude::*;
use crate::types::SqlValue;

verus! {

/// The values supplied when a statement is executed: the rows of a write-set (one for an
/// UPDATE or a single-row INSERT, one per repetition for a multi-row INSERT), the values
/// of the filter's placeholders in order, and the placeholder-backed limit and offset.
#[derive(Clone, Debug)]
pub struct ValueBuilder {
    pub values: Vec<Vec<SqlValue>>,
    pub where_clause: Vec<SqlValue>,
    pub limit: Option<u64>,
    pub offset: Option<u64>,
}

impl ValueBuilder {
    /// No arguments at all.
    pub fn new() -> (r: ValueBuilder)
        ensures
            r.values@.len() == 0,
            r.where_clause@.len() == 0,
            r.limit is None,
            r.offset is None,
    {
        ValueBuilder { values: Vec::new(), where_clause: Vec::new(), limit: None, offset: None }
    }

    /// Sets the rows of the write-set.
    pub fn set(self, rows: Vec<Vec<SqlValue>>) -> (r: ValueBuilder)
        ensures
            r == (ValueBuilder { values: rows, ..self }),
    {
        ValueBuilder { values: rows, ..self }
    }

    /// Sets the values of the filter's placeholders.
    pub fn filter(self, values: Vec<SqlValue>) -> (r: ValueBuilder)
        ensures
            r == (ValueBuilder { where_clause: values, ..self }),
    {
        ValueBuilder { where_clause: values, ..self }
    }

    /// Sets the placeholder-backed limit.
    pub fn limit(self, n: u64) -> (r: ValueBuilder)
        ensures
            r == (ValueBuilder { limit: Some(n), ..self }),
    {
        ValueBuilder { limit: Some(n), ..self }
    }

    /// Sets the placeholder-backed offset.
    pub fn offset(self, n: u64) -> (r: ValueBuilder)
        ensures
            r == (ValueBuilder { offset: Some(n), ..self }),
    {
        ValueBuilder { offset: Some(n), ..self }
    }
}

} // verus!
