//! Typed composition of parameterised PostgreSQL statements.
//!
//! A statement is assembled from a [`Source`] by attaching fragments: the columns to read, the
//! columns to write, a filter, an ordering, a limit and an offset. Every fragment renders its
//! own SQL text, consumes its own placeholders, and contributes to the statement's parameter
//! shape (what must be bound at execution, in placeholder order) and result shape (what is
//! decoded from each row). Rendering, binding and decoding are proved to agree.
use vstd::prelude::*;

pub mod text;
pub mod types;
pub mod source;
pub mod getters;
pub mod setters;
pub mod query;
pub mod order_by;
pub mod filter;
pub mod builders;

pub use builders::delete::DeleteBuilder;
pub use builders::insert::{Conflict, InsValue, InsertBuilder};
pub use builders::select::{Batch, CursorQuery, Fetcher, Limiting, Offsetting, SelectBuilder, Suffix};
pub use builders::update::{UpdValue, UpdateBuilder};
pub use builders::value::ValueBuilder;
pub use filter::{And, Clause, Equality, InSubQuery, IsNull, Not, Or, SubQuery, WhereClause, WithValue};
pub use getters::{Field, Getter, OptionalSelection, ReturningClause, Row, Selection};
pub use order_by::{Asc, Desc, OrderByClause, OrderSeq};
pub use query::{render, IntoSql, Rendered, Slot, SqlInput};
pub use setters::{ColumnsSetter, OptValue};
pub use source::{ColWrap, Column, Source};
pub use types::{SqlError, SqlType, SqlValue};

verus! {

} // verus!
