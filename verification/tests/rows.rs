use std::sync::Arc;

use arrow::array::{
    ArrayRef, BinaryArray, FixedSizeBinaryArray, RecordBatch, StringArray, UInt32Array,
    UInt64Array,
};
use bytes::Bytes;
use chunk_manifest::row::RowCells;
use chunk_manifest::{
    ChunkIndices, ChunkInfo, ChunkPayload, ChunkRef, ManifestError, ManifestsTable, ObjectId,
    TableRegion, VirtualChunkRef,
};

fn key(coord: &[u64]) -> Vec<u8> {
    ChunkIndices(coord.to_vec()).to_bytes()
}

fn inline_cells() -> RowCells {
    RowCells {
        node: Some(4),
        coords: Some(key(&[1, 2, 3])),
        offset: None,
        length: Some(3),
        inline_data: Some(vec![7, 8, 9]),
        chunk_id: None,
        virtual_path: None,
    }
}

fn ref_cells() -> RowCells {
    RowCells {
        node: Some(5),
        coords: Some(key(&[0])),
        offset: Some(10),
        length: Some(20),
        inline_data: None,
        chunk_id: Some(vec![3; 16]),
        virtual_path: None,
    }
}

fn virtual_cells() -> RowCells {
    RowCells {
        node: Some(6),
        coords: Some(key(&[])),
        offset: Some(30),
        length: Some(40),
        inline_data: None,
        chunk_id: None,
        virtual_path: Some("https://example.org/data".to_string()),
    }
}

#[test]
fn cells_of_each_variant_decode() {
    assert_eq!(
        inline_cells().decode(),
        Some(ChunkInfo {
            node: 4,
            coord: ChunkIndices(vec![1, 2, 3]),
            payload: ChunkPayload::Inline(Bytes::from(vec![7, 8, 9])),
        })
    );
    assert_eq!(
        ref_cells().decode(),
        Some(ChunkInfo {
            node: 5,
            coord: ChunkIndices(vec![0]),
            payload: ChunkPayload::Ref(ChunkRef { id: ObjectId([3; 16]), offset: 10, length: 20 }),
        })
    );
    assert_eq!(
        virtual_cells().decode(),
        Some(ChunkInfo {
            node: 6,
            coord: ChunkIndices(vec![]),
            payload: ChunkPayload::Virtual(VirtualChunkRef {
                location: "https://example.org/data".to_string(),
                offset: 30,
                length: 40,
            }),
        })
    );
}

#[test]
fn inline_payload_ignores_the_length_cell() {
    let mut cells = inline_cells();
    cells.length = Some(1_000);
    match cells.decode().unwrap().payload {
        ChunkPayload::Inline(data) => assert_eq!(data.as_ref(), &[7, 8, 9]),
        other => panic!("decoded {:?}", other),
    }
}

#[test]
fn cells_without_owner_coordinate_or_length_are_malformed() {
    for base in [inline_cells, ref_cells, virtual_cells] {
        let mut cells = base();
        cells.node = None;
        assert_eq!(cells.decode(), None);
        let mut cells = base();
        cells.coords = None;
        assert_eq!(cells.decode(), None);
        let mut cells = base();
        cells.length = None;
        assert_eq!(cells.decode(), None);
    }
}

#[test]
fn coordinate_of_a_broken_group_is_malformed() {
    let mut cells = ref_cells();
    cells.coords = Some(vec![0; 7]);
    assert_eq!(cells.decode(), None);
    let mut cells = ref_cells();
    cells.coords = Some(vec![0; 9]);
    assert_eq!(cells.decode(), None);
}

#[test]
fn cells_naming_no_payload_are_malformed() {
    let mut cells = ref_cells();
    cells.chunk_id = None;
    assert_eq!(cells.decode(), None);
    let mut cells = ref_cells();
    cells.chunk_id = None;
    cells.offset = None;
    assert_eq!(cells.decode(), None);
}

#[test]
fn cells_naming_two_or_three_payloads_are_malformed() {
    let mut cells = inline_cells();
    cells.chunk_id = Some(vec![1; 16]);
    assert_eq!(cells.decode(), None);

    let mut cells = inline_cells();
    cells.virtual_path = Some("s3://x".to_string());
    assert_eq!(cells.decode(), None);

    let mut cells = ref_cells();
    cells.virtual_path = Some("s3://x".to_string());
    assert_eq!(cells.decode(), None);

    let mut cells = ref_cells();
    cells.inline_data = Some(vec![]);
    cells.virtual_path = Some("s3://x".to_string());
    assert_eq!(cells.decode(), None);
}

#[test]
fn offset_must_be_present_exactly_where_the_payload_is_not_inline() {
    let mut cells = inline_cells();
    cells.offset = Some(0);
    assert_eq!(cells.decode(), None);

    let mut cells = ref_cells();
    cells.offset = None;
    assert_eq!(cells.decode(), None);

    let mut cells = virtual_cells();
    cells.offset = None;
    assert_eq!(cells.decode(), None);
}

#[test]
fn identifier_of_another_width_is_malformed() {
    let mut cells = ref_cells();
    cells.chunk_id = Some(vec![3; 15]);
    assert_eq!(cells.decode(), None);
    let mut cells = ref_cells();
    cells.chunk_id = Some(vec![3; 17]);
    assert_eq!(cells.decode(), None);
}

#[test]
fn payload_is_resolved_from_the_nullable_columns() {
    assert_eq!(
        RowCells::payload(None, Some(0), Some(vec![1]), None, None),
        Some(ChunkPayload::Inline(Bytes::from(vec![1])))
    );
    assert_eq!(
        RowCells::payload(Some(1), Some(2), None, Some(vec![9; 16]), None),
        Some(ChunkPayload::Ref(ChunkRef { id: ObjectId([9; 16]), offset: 1, length: 2 }))
    );
    assert_eq!(
        RowCells::payload(Some(1), Some(2), None, None, Some("a".to_string())),
        Some(ChunkPayload::Virtual(VirtualChunkRef {
            location: "a".to_string(),
            offset: 1,
            length: 2
        }))
    );
    assert_eq!(RowCells::payload(None, None, Some(vec![1]), None, None), None);
    assert_eq!(RowCells::payload(None, Some(0), None, None, None), None);
    assert_eq!(RowCells::payload(Some(0), Some(0), None, None, None), None);
}

/// A batch with the columns of a manifest table, every one nullable.
struct Columns {
    ids: Vec<Option<u32>>,
    coords: Vec<Option<Vec<u8>>>,
    offsets: Vec<Option<u64>>,
    lengths: Vec<Option<u64>>,
    inline_data: Vec<Option<Vec<u8>>>,
    chunk_ids: Vec<Option<Vec<u8>>>,
    paths: Vec<Option<String>>,
}

impl Columns {
    /// Row 0 inline, row 1 a store reference, row 2 virtual.
    fn valid() -> Columns {
        Columns {
            ids: vec![Some(1), Some(2), Some(3)],
            coords: vec![Some(key(&[0, 1])), Some(key(&[0, 2])), Some(key(&[0, 3]))],
            offsets: vec![None, Some(5), Some(6)],
            lengths: vec![Some(2), Some(50), Some(60)],
            inline_data: vec![Some(vec![b'h', b'i']), None, None],
            chunk_ids: vec![None, Some(vec![0xee; 16]), None],
            paths: vec![None, None, Some("s3://b/k".to_string())],
        }
    }

    fn arrays(self) -> Vec<(&'static str, ArrayRef, bool)> {
        let ids: UInt32Array = self.ids.into_iter().collect();
        let coords: BinaryArray = self.coords.into_iter().collect();
        let offsets: UInt64Array = self.offsets.into_iter().collect();
        let lengths: UInt64Array = self.lengths.into_iter().collect();
        let inline_data: BinaryArray = self.inline_data.into_iter().collect();
        let chunk_ids =
            FixedSizeBinaryArray::try_from_sparse_iter_with_size(self.chunk_ids.into_iter(), 16)
                .unwrap();
        let paths: StringArray = self.paths.into_iter().collect();
        vec![
            ("array_id", Arc::new(ids) as ArrayRef, true),
            ("coords", Arc::new(coords) as ArrayRef, true),
            ("offset", Arc::new(offsets) as ArrayRef, true),
            ("length", Arc::new(lengths) as ArrayRef, true),
            ("inline_data", Arc::new(inline_data) as ArrayRef, true),
            ("chunk_id", Arc::new(chunk_ids) as ArrayRef, true),
            ("virtual_path", Arc::new(paths) as ArrayRef, true),
        ]
    }

    fn table(self) -> ManifestsTable {
        table_of(self.arrays())
    }
}

fn table_of(arrays: Vec<(&'static str, ArrayRef, bool)>) -> ManifestsTable {
    ManifestsTable { batch: RecordBatch::try_from_iter_with_nullable(arrays).unwrap() }
}

fn expected() -> Vec<ChunkInfo> {
    vec![
        ChunkInfo {
            node: 1,
            coord: ChunkIndices(vec![0, 1]),
            payload: ChunkPayload::Inline(Bytes::from("hi")),
        },
        ChunkInfo {
            node: 2,
            coord: ChunkIndices(vec![0, 2]),
            payload: ChunkPayload::Ref(ChunkRef {
                id: ObjectId([0xee; 16]),
                offset: 5,
                length: 50,
            }),
        },
        ChunkInfo {
            node: 3,
            coord: ChunkIndices(vec![0, 3]),
            payload: ChunkPayload::Virtual(VirtualChunkRef {
                location: "s3://b/k".to_string(),
                offset: 6,
                length: 60,
            }),
        },
    ]
}

#[test]
fn table_without_the_reserved_column_decodes() {
    let table = Columns::valid().table();
    let rows = expected();
    assert_eq!(table.get_row(0), Ok(Some(rows[0].clone())));
    assert_eq!(table.get_row(1), Ok(Some(rows[1].clone())));
    assert_eq!(table.get_row(2), Ok(Some(rows[2].clone())));
    assert_eq!(table.get_row(3), Ok(None));
}

#[test]
fn table_with_a_filled_reserved_column_decodes() {
    let mut arrays = Columns::valid().arrays();
    let extras: StringArray = vec![Some("x"), None, Some("y")].into_iter().collect();
    arrays.push(("extra", Arc::new(extras) as ArrayRef, true));
    let table = table_of(arrays);
    let all: Vec<Result<ChunkInfo, ManifestError>> = expected().into_iter().map(Ok).collect();
    assert_eq!(table.iter(None, None), all);
}

#[test]
fn row_naming_two_payloads_is_malformed() {
    let mut columns = Columns::valid();
    columns.chunk_ids[0] = Some(vec![1; 16]);
    columns.paths[1] = Some("s3://also".to_string());
    columns.inline_data[2] = Some(vec![1]);
    let table = columns.table();
    assert_eq!(table.get_row(0), Err(ManifestError::MalformedRow { row: 0 }));
    assert_eq!(table.get_row(1), Err(ManifestError::MalformedRow { row: 1 }));
    assert_eq!(table.get_row(2), Err(ManifestError::MalformedRow { row: 2 }));
}

#[test]
fn row_naming_no_payload_is_malformed() {
    let mut columns = Columns::valid();
    columns.inline_data[0] = None;
    columns.chunk_ids[1] = None;
    columns.paths[2] = None;
    let table = columns.table();
    for row in 0..3 {
        assert_eq!(table.get_row(row), Err(ManifestError::MalformedRow { row }));
    }
}

#[test]
fn row_with_a_misplaced_offset_is_malformed() {
    let mut columns = Columns::valid();
    columns.offsets = vec![Some(0), None, None];
    let table = columns.table();
    for row in 0..3 {
        assert_eq!(table.get_row(row), Err(ManifestError::MalformedRow { row }));
    }
}

#[test]
fn row_with_a_null_in_a_required_column_is_malformed() {
    let mut columns = Columns::valid();
    columns.ids[0] = None;
    columns.coords[1] = None;
    columns.lengths[2] = None;
    let table = columns.table();
    for row in 0..3 {
        assert_eq!(table.get_row(row), Err(ManifestError::MalformedRow { row }));
    }
}

#[test]
fn row_with_a_broken_coordinate_is_malformed() {
    let mut columns = Columns::valid();
    columns.coords[1] = Some(vec![0; 12]);
    let table = columns.table();
    assert_eq!(table.get_row(1), Err(ManifestError::MalformedRow { row: 1 }));
    assert_eq!(table.get_row(0), Ok(Some(expected()[0].clone())));
}

#[test]
fn scan_reports_a_malformed_row_in_its_place() {
    let mut columns = Columns::valid();
    columns.paths[1] = Some("s3://also".to_string());
    let table = columns.table();
    let rows = expected();
    assert_eq!(
        table.iter(None, None),
        vec![
            Ok(rows[0].clone()),
            Err(ManifestError::MalformedRow { row: 1 }),
            Ok(rows[2].clone()),
        ]
    );
    assert_eq!(
        table.iter(Some(1), Some(4)),
        vec![
            Err(ManifestError::MalformedRow { row: 1 }),
            Ok(rows[2].clone()),
            Err(ManifestError::RegionOutOfBounds { from: 1, to: 4, rows: 3 }),
        ]
    );
}

#[test]
fn lookup_of_a_malformed_row_reports_it() {
    let mut columns = Columns::valid();
    columns.paths[1] = Some("s3://also".to_string());
    let table = columns.table();
    let found = table.get_chunk_info(&ChunkIndices(vec![0, 2]), &TableRegion(0, 3));
    assert_eq!(found, Err(ManifestError::MalformedRow { row: 1 }));
    assert_eq!(table.get_chunk_info_index(&ChunkIndices(vec![0, 2]), &TableRegion(0, 3)), Some(1));
    let other = table.get_chunk_info(&ChunkIndices(vec![0, 3]), &TableRegion(0, 3));
    assert_eq!(other, Ok(Some(expected()[2].clone())));
}

#[test]
fn table_missing_a_payload_column_decodes_the_other_variants() {
    let mut arrays = Columns::valid().arrays();
    arrays.retain(|(name, _, _)| *name != "chunk_id");
    let table = table_of(arrays);
    let rows = expected();
    assert_eq!(table.get_row(0), Ok(Some(rows[0].clone())));
    assert_eq!(table.get_row(1), Err(ManifestError::MalformedRow { row: 1 }));
    assert_eq!(table.get_row(2), Ok(Some(rows[2].clone())));
}

#[test]
fn table_missing_a_required_column_has_only_malformed_rows() {
    for missing in ["array_id", "coords", "length"] {
        let mut arrays = Columns::valid().arrays();
        arrays.retain(|(name, _, _)| *name != missing);
        let table = table_of(arrays);
        for row in 0..3 {
            assert_eq!(table.get_row(row), Err(ManifestError::MalformedRow { row }));
        }
        assert_eq!(table.get_row(3), Ok(None));
    }
}

#[test]
fn column_of_another_type_counts_as_empty() {
    let mut arrays = Columns::valid().arrays();
    let wide_ids: UInt64Array = vec![Some(1u64), Some(2), Some(3)].into_iter().collect();
    arrays[0] = ("array_id", Arc::new(wide_ids) as ArrayRef, true);
    let table = table_of(arrays);
    for row in 0..3 {
        assert_eq!(table.get_row(row), Err(ManifestError::MalformedRow { row }));
    }

    let mut arrays = Columns::valid().arrays();
    let text_coords: StringArray = vec![Some("aaaaaaaa"); 3].into_iter().collect();
    arrays[1] = ("coords", Arc::new(text_coords) as ArrayRef, true);
    let table = table_of(arrays);
    let spelled = ChunkIndices(vec![0x6161_6161_6161_6161]);
    assert_eq!(table.get_chunk_info_index(&spelled, &TableRegion(0, 3)), None);
    assert_eq!(table.get_row(0), Err(ManifestError::MalformedRow { row: 0 }));
}

#[test]
fn identifier_column_of_another_width_is_malformed() {
    let mut arrays = Columns::valid().arrays();
    let narrow = FixedSizeBinaryArray::try_from_sparse_iter_with_size(
        vec![None, Some(vec![1u8; 4]), None].into_iter(),
        4,
    )
    .unwrap();
    arrays[5] = ("chunk_id", Arc::new(narrow) as ArrayRef, true);
    let table = table_of(arrays);
    let rows = expected();
    assert_eq!(table.get_row(0), Ok(Some(rows[0].clone())));
    assert_eq!(table.get_row(1), Err(ManifestError::MalformedRow { row: 1 }));
    assert_eq!(table.get_row(2), Ok(Some(rows[2].clone())));
}

#[test]
fn null_coordinate_matches_no_lookup() {
    let mut columns = Columns::valid();
    columns.coords[0] = None;
    let table = columns.table();
    assert_eq!(table.get_chunk_info_index(&ChunkIndices(vec![]), &TableRegion(0, 3)), None);
    assert_eq!(table.get_chunk_info_index(&ChunkIndices(vec![0, 1]), &TableRegion(0, 3)), None);
    assert_eq!(table.get_chunk_info_index(&ChunkIndices(vec![0, 2]), &TableRegion(0, 3)), Some(1));
}
