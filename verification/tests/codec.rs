use chunk_manifest::{ChunkIndices, ManifestError, ObjectId, TableRegion};

fn roundtrip(v: Vec<u64>) {
    let arr = ChunkIndices(v);
    let as_vec: Vec<u8> = (&arr).into();
    assert_eq!(as_vec.len(), 8 * arr.0.len());
    let back = ChunkIndices::try_from_slice(arr.0.len(), as_vec.as_slice()).unwrap();
    assert_eq!(arr, back);
}

#[test]
fn coordinate_encoding_roundtrip() {
    roundtrip(vec![]);
    roundtrip(vec![0]);
    roundtrip(vec![u64::MAX]);
    roundtrip(vec![0, 0, 1]);
    roundtrip(vec![1, 0, 1]);
    roundtrip(vec![0x0102_0304_0506_0708, 255, 256, 65_535, 65_536, u64::MAX - 1]);
    roundtrip((0..100).map(|i| i * 0x0101_0101_0101_0101).collect());
}

#[test]
fn encoding_is_big_endian_in_dimension_order() {
    let bytes = ChunkIndices(vec![1, 256, 0x0102_0304_0506_0708]).to_bytes();
    assert_eq!(
        bytes,
        vec![
            0, 0, 0, 0, 0, 0, 0, 1, //
            0, 0, 0, 0, 0, 0, 1, 0, //
            1, 2, 3, 4, 5, 6, 7, 8,
        ]
    );
    assert_eq!(ChunkIndices(vec![u64::MAX]).to_bytes(), vec![255; 8]);
    assert_eq!(ChunkIndices(vec![]).to_bytes(), Vec::<u8>::new());
}

#[test]
fn conversion_into_bytes_is_the_encoding() {
    let coord = ChunkIndices(vec![7, 0x0100_0000_0000_0000]);
    let converted: Vec<u8> = Vec::from(&coord);
    assert_eq!(converted, coord.to_bytes());
    assert_eq!(converted, vec![0, 0, 0, 0, 0, 0, 0, 7, 1, 0, 0, 0, 0, 0, 0, 0]);
}

#[test]
fn encoding_keeps_the_order_of_each_index() {
    let values = [0u64, 1, 255, 256, 0xffff_ffff, 0x1_0000_0000, u64::MAX - 1, u64::MAX];
    for (i, a) in values.iter().enumerate() {
        for b in &values[i + 1..] {
            assert!(ChunkIndices(vec![*a]).to_bytes() < ChunkIndices(vec![*b]).to_bytes());
        }
    }
}

#[test]
fn encoding_is_injective_on_samples() {
    let samples = vec![
        vec![],
        vec![0],
        vec![1],
        vec![0, 0],
        vec![0, 1],
        vec![1, 0],
        vec![256],
        vec![0, 0, 0],
    ];
    for a in &samples {
        for b in &samples {
            let same = ChunkIndices(a.clone()).to_bytes() == ChunkIndices(b.clone()).to_bytes();
            assert_eq!(same, a == b);
        }
    }
}

#[test]
fn unchecked_decode_reads_every_group_of_eight() {
    let bytes = [0, 0, 0, 0, 0, 0, 0, 5, 0, 0, 0, 0, 0, 0, 2, 1, 255, 0, 0, 0, 0, 0, 0, 0];
    let coord = ChunkIndices::unchecked_try_from_slice(&bytes).unwrap();
    assert_eq!(coord, ChunkIndices(vec![5, 513, 0xff00_0000_0000_0000]));
    let empty = ChunkIndices::unchecked_try_from_slice(&[]).unwrap();
    assert_eq!(empty, ChunkIndices(vec![]));
}

#[test]
fn checked_decode_accepts_the_exact_length() {
    let bytes = [0, 0, 0, 0, 0, 0, 0, 9, 0, 0, 0, 0, 0, 0, 0, 10];
    assert_eq!(ChunkIndices::try_from_slice(2, &bytes), Ok(ChunkIndices(vec![9, 10])));
    assert_eq!(ChunkIndices::try_from_slice(0, &[]), Ok(ChunkIndices(vec![])));
}

#[test]
fn checked_decode_rejects_mismatched_length() {
    let bytes = [0u8; 16];
    assert_eq!(
        ChunkIndices::try_from_slice(3, &bytes),
        Err(ManifestError::InvalidEncoding { actual: 16, rank: 3 })
    );
    assert_eq!(
        ChunkIndices::try_from_slice(1, &bytes),
        Err(ManifestError::InvalidEncoding { actual: 16, rank: 1 })
    );
    assert_eq!(
        ChunkIndices::try_from_slice(0, &bytes[..1]),
        Err(ManifestError::InvalidEncoding { actual: 1, rank: 0 })
    );
    assert_eq!(
        ChunkIndices::try_from_slice(2, &bytes[..15]),
        Err(ManifestError::InvalidEncoding { actual: 15, rank: 2 })
    );
    assert_eq!(
        ChunkIndices::try_from_slice(1, &bytes[..9]),
        Err(ManifestError::InvalidEncoding { actual: 9, rank: 1 })
    );
}

#[test]
fn checked_decode_rejects_a_rank_too_large_to_multiply() {
    let bytes = [0u8; 8];
    assert_eq!(
        ChunkIndices::try_from_slice(usize::MAX, &bytes),
        Err(ManifestError::InvalidEncoding { actual: 8, rank: usize::MAX })
    );
    // 8 * (usize::MAX / 8 + 2) wraps around to 8 in machine arithmetic.
    let wrapping = usize::MAX / 8 + 2;
    assert_eq!(
        ChunkIndices::try_from_slice(wrapping, &bytes),
        Err(ManifestError::InvalidEncoding { actual: 8, rank: wrapping })
    );
}

#[test]
fn object_id_from_bytes_wants_sixteen() {
    let bytes: Vec<u8> = (1..=16).collect();
    let id = ObjectId::from_bytes(&bytes).unwrap();
    assert_eq!(id.0, [1, 2, 3, 4, 5, 6, 7, 8, 9, 10, 11, 12, 13, 14, 15, 16]);
    assert_eq!(ObjectId::from_bytes(&bytes[..15]), None);
    assert_eq!(ObjectId::from_bytes(&[0u8; 17]), None);
    assert_eq!(ObjectId::from_bytes(&[]), None);
    assert_eq!(ObjectId::SIZE, 16);
}

#[test]
fn region_is_well_formed_within_the_table() {
    assert!(TableRegion(0, 0).fits(0));
    assert!(TableRegion(0, 5).fits(5));
    assert!(TableRegion(3, 3).fits(5));
    assert!(TableRegion(5, 5).fits(5));
    assert!(!TableRegion(0, 6).fits(5));
    assert!(!TableRegion(4, 3).fits(5));
    assert!(!TableRegion(6, 6).fits(5));
}

#[test]
fn region_validation_reports_the_region_and_the_row_count() {
    assert_eq!(TableRegion(1, 3).validate(3), Ok(()));
    assert_eq!(
        TableRegion(1, 4).validate(3),
        Err(ManifestError::RegionOutOfBounds { from: 1, to: 4, rows: 3 })
    );
    assert_eq!(
        TableRegion(4, 3).validate(10),
        Err(ManifestError::RegionOutOfBounds { from: 4, to: 3, rows: 10 })
    );
}
