//! References to engine-side objects, held by the engine's handle value.

use vstd::prelude::*;

verus! {

/// A column data collection of the engine: its handle, and the number of
/// columns it was created with.
#[derive(Debug, Clone, Copy, PartialEq, Eq, Structural)]
pub struct ColumnDataCollection {
    pub handle: usize,
    pub column_count: usize,
}

/// A data chunk of the engine, and whether this library owns it (and so must
/// destroy it) or borrows it from a callback. Not copyable: one value per
/// chunk, so an owned chunk is destroyed once.
#[derive(Debug, PartialEq, Eq, Structural)]
pub struct DataChunk {
    pub handle: usize,
    pub owned: bool,
}

impl DataChunk {
    /// A chunk the engine produced for this library, which owns it if `owned`.
    pub fn new(handle: usize, owned: bool) -> (r: DataChunk)
        ensures
            r == (DataChunk { handle, owned }),
    {
        DataChunk { handle, owned }
    }
}

/// A data chunk borrowed for the duration of a call.
#[derive(Debug, Clone, Copy, PartialEq, Eq, Structural)]
pub struct DataChunkRef {
    pub handle: usize,
}

/// A DuckDB schema (column names and logical types) the engine resolved and
/// handed over to this library. Not copyable: one value per schema, so it is
/// destroyed once.
#[derive(Debug, PartialEq, Eq, Structural)]
pub struct Schema {
    pub handle: usize,
}

} // verus!
