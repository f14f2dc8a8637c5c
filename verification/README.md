# duckdb

A DuckDB client library whose logic is verified with Verus.

- `src/` is the verified library:
  - `types/timestamp.rs`: the date, time and timestamp storage values and
    their conversion to calendar dates, times of day and UTC instants;
    `types/calendar.rs` holds the trusted calls into chrono.
  - `replacement_scan.rs`: the engine call each claim, argument or alias of
    a replacement scan makes (answered by the engine), the consultation of a
    scan, and the steps that register a scan.
  - `arrow.rs`: what the Arrow exporter and importer hand to the engine and
    what the engine's answers become.
  - `value.rs`, `data_chunk.rs`, `error.rs`: plain values, qualified names and
    their engine parts, engine object references and errors.
- `app/` runs those decisions against DuckDB's v2 C API (`libduckdb-sys`).
- `tests/` exercises the library.
