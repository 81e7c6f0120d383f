//! SQL editor support for the ClickHouse dialect: completion lists built from a
//! catalog of the dialect, the clause the cursor is in, and validation and
//! pretty-printing through sqlparser.

pub mod cache;
pub mod catalog;
pub mod completion;
pub mod context;
pub mod text;
pub mod validate;
