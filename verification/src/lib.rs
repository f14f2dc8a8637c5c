//! Verified core of a DuckDB client library: date and time storage values and
//! their calendar conversions, the engine calls a replacement scan makes when
//! it claims an unresolved table reference, and the Arrow import/export
//! protocol.

pub mod types;

pub use types::timestamp::{
    CivilDate, DateValue, TimeNsValue, TimeOfDay, TimeTzValue, TimeValue, TimestampMsValue,
    TimestampNsValue, TimestampSecValue, TimestampTzNsValue, TimestampTzValue, TimestampValue,
    UtcDateTime,
};

pub mod data_chunk;
pub mod error;
pub mod replacement_scan;
pub mod value;
pub mod arrow;
