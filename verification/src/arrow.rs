//! Arrow C Data Interface conversion.
//!
//! Exported `ArrowSchema` and `ArrowArray` values follow Arrow's `release`
//! callback ownership convention. Importing an array transfers its buffers to
//! the resulting [`crate::data_chunk::DataChunk`].
//!
//! The engine does the conversions; this module fixes what each engine call
//! is handed and what its answer becomes.

use vstd::prelude::*;

use crate::data_chunk::{DataChunk, DataChunkRef, Schema};
use crate::error::Error;

verus! {

/// The batch size handed to the engine: the requested maximum of rows per
/// produced array or chunk, or 0, the engine's "no maximum".
pub open spec fn batch_size_arg(batch_size: Option<usize>) -> u64 {
    match batch_size {
        Some(n) => n as u64,
        None => 0,
    }
}

/// The batch size handed to the engine: the requested maximum, or 0 for no
/// maximum.
pub fn batch_size_argument(batch_size: Option<usize>) -> (r: u64)
    ensures
        r == batch_size_arg(batch_size),
        batch_size matches Some(n) ==> r == n,
        batch_size is None ==> r == 0,
{
    match batch_size {
        Some(n) => n as u64,
        None => 0,
    }
}

/// The batch size handed to the engine is the requested maximum itself,
/// whatever its size, and 0 when no maximum is requested.
pub proof fn lemma_batch_size_is_the_request(n: usize)
    ensures
        batch_size_arg(Some(n)) == n,
        batch_size_arg(None) == 0,
{
}

/// Two requests hand the engine the same batch size only when they ask for
/// the same maximum (a request of 0 rows and none at all both mean "no
/// maximum" to the engine).
pub proof fn lemma_batch_size_distinguishes_requests(a: Option<usize>, b: Option<usize>)
    ensures
        batch_size_arg(a) == batch_size_arg(b) <==> (a == b || (a == Some(0usize) && b is None) || (
        a is None && b == Some(0usize))),
{
}

/// What creating an exporter hands to the engine besides the column types
/// and names: how many columns to read from those two parallel arrays, and
/// the batch size.
#[derive(Debug, Clone, Copy, PartialEq, Eq, Structural)]
pub struct ExporterRequest {
    pub count: u64,
    pub batch_size: u64,
}

/// An append call to an exporter or importer: the target's handle, the
/// input's handle, whether the engine takes over (and releases) the input, and
/// whether this input ends the stream.
#[derive(Debug, Clone, Copy, PartialEq, Eq, Structural)]
pub struct AppendCall {
    pub target: usize,
    pub input: usize,
    pub consume: bool,
    pub flush: bool,
}

/// Converts DuckDB data chunks into Arrow arrays, for one fixed list of
/// columns.
#[derive(Debug)]
pub struct ArrowExporter {
    pub handle: usize,
}

impl ArrowExporter {
    /// The request that creates an exporter over the first `count` column
    /// types and names. The engine reads `count` entries of each array, so
    /// neither may be shorter.
    pub fn request(type_count: usize, name_count: usize, count: usize, batch_size: Option<usize>) -> (r:
        ExporterRequest)
        requires
            count <= type_count,
            count <= name_count,
        ensures
            r.count == count,
            r.batch_size == batch_size_arg(batch_size),
            batch_size matches Some(n) ==> r.batch_size == n,
            batch_size is None ==> r.batch_size == 0,
    {
        ExporterRequest { count: count as u64, batch_size: batch_size_argument(batch_size) }
    }

    /// The call that gives the exporter a chunk to convert. The chunk is only
    /// borrowed, so the engine is told not to consume (destroy) it; `flush`
    /// marks the end of the input.
    pub fn append(&mut self, chunk: DataChunkRef, flush: bool) -> (r: AppendCall)
        ensures
            r == (AppendCall { target: old(self).handle, input: chunk.handle, consume: false, flush }),
            final(self).handle == old(self).handle,
    {
        AppendCall { target: self.handle, input: chunk.handle, consume: false, flush }
    }

    /// The exporter the engine created, or the error it reported.
    pub fn new(created: Result<usize, Error>) -> (r: Result<ArrowExporter, Error>)
        ensures
            r matches Ok(e) ==> created matches Ok(h) && e.handle == h,
            r is Err <==> created is Err,
            r is Err ==> r->Err_0 == created->Err_0,
    {
        match created {
            Ok(handle) => Ok(ArrowExporter { handle }),
            Err(e) => Err(e),
        }
    }
}

/// Converts Arrow arrays into DuckDB data chunks, against one resolved
/// Arrow schema.
#[derive(Debug)]
pub struct ArrowImporter {
    pub handle: usize,
}

impl ArrowImporter {
    /// The importer the engine created from an Arrow schema, with the batch
    /// size `batch_size_argument` gave it, or the error it reported.
    pub fn new(created: Result<usize, Error>) -> (r: Result<ArrowImporter, Error>)
        ensures
            r matches Ok(i) ==> created matches Ok(h) && i.handle == h,
            r is Err <==> created is Err,
            r is Err ==> r->Err_0 == created->Err_0,
    {
        match created {
            Ok(handle) => Ok(ArrowImporter { handle }),
            Err(e) => Err(e),
        }
    }

    /// The call that gives the importer an Arrow array (at address `array`)
    /// to convert. Importing transfers the array's buffers to the chunks it
    /// produces: the engine is told to consume the array, taking it over and
    /// unsetting its `release`; `flush` marks the end of the input.
    pub fn append(&self, array: usize, flush: bool) -> (r: AppendCall)
        ensures
            r == (AppendCall { target: self.handle, input: array, consume: true, flush }),
    {
        AppendCall { target: self.handle, input: array, consume: true, flush }
    }

    /// The DuckDB schema the engine resolved for this importer, or the error
    /// it reported.
    pub fn schema(&self, fetched: Result<usize, Error>) -> (r: Result<Schema, Error>)
        ensures
            r matches Ok(s) ==> fetched matches Ok(h) && s == (Schema { handle: h }),
            r is Err <==> fetched is Err,
            r is Err ==> r->Err_0 == fetched->Err_0,
    {
        match fetched {
            Ok(handle) => Ok(Schema { handle }),
            Err(e) => Err(e),
        }
    }

    /// The next chunk the engine produced, which this library then owns (and
    /// destroys), or the error it reported.
    pub fn chunk(&self, fetched: Result<usize, Error>) -> (r: Result<DataChunk, Error>)
        ensures
            r matches Ok(c) ==> fetched matches Ok(h) && c == (DataChunk { handle: h, owned: true }),
            r is Err <==> fetched is Err,
            r is Err ==> r->Err_0 == fetched->Err_0,
    {
        match fetched {
            Ok(handle) => Ok(DataChunk::new(handle, true)),
            Err(e) => Err(e),
        }
    }
}

} // verus!
