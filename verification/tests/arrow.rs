use duckdb::arrow::{batch_size_argument, AppendCall, ArrowExporter, ArrowImporter};
use duckdb::data_chunk::{DataChunk, DataChunkRef, Schema};
use duckdb::error::Error;

// to_arrow(val1 BIGINT, val2 BOOLEAN, val3 VARCHAR): the three input columns
// are exported to Arrow and imported back. What the library hands to the
// engine for that round trip, and what the engine's answers become.
#[test]
fn test_arrow_conversion() {
    let names = ["val1", "val2", "val3"];
    let request = ArrowExporter::request(3, names.len(), 3, None);
    assert_eq!(request.count, 3);
    assert_eq!(request.batch_size, 0);

    let mut exporter = ArrowExporter::new(Ok(0x1000)).unwrap();
    let input = DataChunkRef { handle: 0x2000 };
    assert_eq!(
        exporter.append(input, true),
        AppendCall { target: 0x1000, input: 0x2000, consume: false, flush: true }
    );

    let importer = ArrowImporter::new(Ok(0x3000)).unwrap();
    assert_eq!(
        importer.append(0x4000, false),
        AppendCall { target: 0x3000, input: 0x4000, consume: true, flush: false }
    );
    let chunk = importer.chunk(Ok(0x5000)).unwrap();
    assert_eq!(chunk, DataChunk { handle: 0x5000, owned: true });
}

#[test]
fn batch_size_defaults_to_no_maximum() {
    assert_eq!(batch_size_argument(None), 0);
    assert_eq!(batch_size_argument(Some(2048)), 2048);
    assert_eq!(ArrowExporter::request(4, 5, 2, Some(7)).batch_size, 7);
}

#[test]
fn engine_errors_pass_through() {
    let err = ArrowImporter::new(Err(Error::Engine { code: 9, message: "bad schema".to_string() }));
    assert!(matches!(err, Err(Error::Engine { code: 9, .. })));
    assert!(matches!(
        ArrowExporter::new(Err(Error::Engine { code: 2, message: String::new() })),
        Err(Error::Engine { code: 2, .. })
    ));
    let importer = ArrowImporter::new(Ok(1)).unwrap();
    assert_eq!(importer.schema(Ok(8)).unwrap(), Schema { handle: 8 });
    assert!(matches!(
        importer.chunk(Err(Error::Engine { code: 4, message: String::new() })),
        Err(Error::Engine { code: 4, .. })
    ));
}
