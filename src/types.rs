//! The column types this library knows, and the values that travel through placeholders and rows.
use vstd::prelude::*;

verus! {

/// The type of a column, and so of the values bound to it or read from it.
#[derive(Clone, Copy, Debug, PartialEq, Eq, Structural)]
pub enum SqlType {
    Bool,
    SmallInt,
    Int,
    BigInt,
    Text,
}

/// One value bound to a placeholder or read from a row.
#[derive(Clone, Debug, PartialEq, Eq)]
pub enum SqlValue {
    Null,
    Bool(bool),
    SmallInt(i16),
    Int(i32),
    BigInt(i64),
    Text(String),
}

/// Whether `v` may stand in a column of type `t`: a NULL fits every type.
pub open spec fn has_type(v: SqlValue, t: SqlType) -> bool {
    match v {
        SqlValue::Null => true,
        SqlValue::Bool(_) => t == SqlType::Bool,
        SqlValue::SmallInt(_) => t == SqlType::SmallInt,
        SqlValue::Int(_) => t == SqlType::Int,
        SqlValue::BigInt(_) => t == SqlType::BigInt,
        SqlValue::Text(_) => t == SqlType::Text,
    }
}

impl SqlValue {
    /// Whether this value may stand in a column of type `t`.
    pub fn fits(&self, t: SqlType) -> (r: bool)
        ensures
            r == has_type(*self, t),
    {
        match self {
            SqlValue::Null => true,
            SqlValue::Bool(_) => t == SqlType::Bool,
            SqlValue::SmallInt(_) => t == SqlType::SmallInt,
            SqlValue::Int(_) => t == SqlType::Int,
            SqlValue::BigInt(_) => t == SqlType::BigInt,
            SqlValue::Text(_) => t == SqlType::Text,
        }
    }

    /// An equal copy of this value.
    pub fn duplicate(&self) -> (r: SqlValue)
        ensures
            r == *self,
    {
        match self {
            SqlValue::Null => SqlValue::Null,
            SqlValue::Bool(b) => SqlValue::Bool(*b),
            SqlValue::SmallInt(n) => SqlValue::SmallInt(*n),
            SqlValue::Int(n) => SqlValue::Int(*n),
            SqlValue::BigInt(n) => SqlValue::BigInt(*n),
            SqlValue::Text(s) => SqlValue::Text(s.clone()),
        }
    }
}

} // verus!

verus! {

/// Why a statement could not be rendered, bound or decoded.
#[derive(Clone, Copy, Debug, PartialEq, Eq, Structural)]
pub enum SqlError {
    /// A fragment does not fit its statement: a column of another table, a value given at
    /// build time that does not fit its column, or a sub-query that does not select exactly
    /// one column of the tested column's type.
    InvalidFragment,
    /// A write-set is missing or emits no column.
    EmptyColumns,
    /// A repeat count of zero.
    ZeroRepeat,
    /// `DEFAULT VALUES` with a repeat count other than one.
    DefaultValuesRepeat,
    /// A statement needs no selection to be attached.
    MissingSelection,
    /// A sub-query was rendered before: it renders once.
    RenderedSubQuery,
    /// A parameter shape was asked for before every sub-query of the statement was rendered.
    UnrenderedSubQuery,
    /// A cursor declaration rendered anywhere but at the first placeholder.
    NestedCursor,
    /// More placeholders than a `usize` can number.
    TooManyPlaceholders,
    /// The arguments do not have the parameter shape: wrong count, type or row count.
    ArgumentMismatch,
    /// A row does not have the result shape: wrong count or type of columns.
    RowMismatch,
}

} // verus!
