//! Storage values of DuckDB's logical types.

pub mod calendar;
pub mod timestamp;
