//! Statement builders: SELECT, INSERT, UPDATE, DELETE, and the argument builder.
pub mod select;
pub mod value;
pub mod insert;
pub mod update;
pub mod delete;
