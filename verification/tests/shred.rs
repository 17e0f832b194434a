use fd_agave::shred::code::{erasure_shard_index, first_coding_index, sanitize, CodingShredHeaders};
use fd_agave::shred::layout::{
    build_code_shred, build_data_shred, code_shred_invariants, data_shred_invariants,
    read_code_shred, read_data_shred, write_u16, write_u32, write_u64, CodeShredFields,
    DataShredFields, CODE_PAYLOAD_SZ, DATA_PAYLOAD_SZ,
};
use fd_agave::shred::{ShredError, ShredType};

fn headers(index: u32, fec_set_index: u32, num_data: u16, num_coding: u16, position: u16) -> CodingShredHeaders {
    CodingShredHeaders {
        index,
        fec_set_index,
        num_data_shreds: num_data,
        num_coding_shreds: num_coding,
        position,
    }
}

#[test]
fn shard_index_follows_data_shards() {
    let h = headers(69, 64, 32, 32, 5);
    assert_eq!(first_coding_index(&h), Some(64));
    assert_eq!(erasure_shard_index(&h, false), Some(37));
}

#[test]
fn shard_index_rejects_empty_sets_and_bad_positions() {
    assert_eq!(erasure_shard_index(&headers(10, 0, 0, 32, 1), false), None);
    assert_eq!(erasure_shard_index(&headers(10, 0, 32, 0, 1), false), None);
    assert_eq!(erasure_shard_index(&headers(40, 0, 32, 32, 32), false), None);
    assert_eq!(erasure_shard_index(&headers(3, 0, 32, 32, 4), false), None);
}

#[test]
fn shard_index_respects_slot_limits() {
    // last data index 32_767 + 1 is past the limit
    assert_eq!(erasure_shard_index(&headers(32_736, 32_737, 32, 32, 0), false), None);
    assert_eq!(erasure_shard_index(&headers(32_736, 32_736, 32, 32, 0), false), Some(32));
    // last coding index past the limit
    assert_eq!(erasure_shard_index(&headers(32_740, 32_736, 32, 32, 0), false), None);
    // larger limits accept it
    assert_eq!(erasure_shard_index(&headers(32_740, 32_736, 32, 32, 0), true), Some(32));
    // overflow of the last data index
    assert_eq!(erasure_shard_index(&headers(5, u32::MAX, 2, 1, 0), true), None);
}

#[test]
fn sanitize_errors_in_order() {
    let good = headers(69, 64, 32, 32, 5);
    assert_eq!(sanitize(&good, 10, 1228, false, Ok(())), Err(ShredError::InvalidPayloadSize(10)));
    assert_eq!(
        sanitize(&headers(40_000, 64, 32, 32, 5), 1228, 1228, false, Ok(())),
        Err(ShredError::InvalidShredIndex(ShredType::Code, 40_000))
    );
    assert_eq!(
        sanitize(&headers(69, 64, 32, 257, 5), 1228, 1228, false, Ok(())),
        Err(ShredError::InvalidNumCodingShreds(257))
    );
    assert_eq!(
        sanitize(&headers(69, 64, 32, 4, 5), 1228, 1228, false, Ok(())),
        Err(ShredError::InvalidErasureShardIndex)
    );
    assert_eq!(
        sanitize(&good, 1228, 1228, false, Err(ShredError::InvalidErasureShard)),
        Err(ShredError::InvalidErasureShard)
    );
    assert_eq!(sanitize(&good, 1228, 1228, false, Ok(())), Ok(()));
}

#[test]
fn writers_place_little_endian_bytes() {
    let mut buf = [0u8; 16];
    write_u16(&mut buf, 1, 0x0102);
    write_u32(&mut buf, 3, 0x03040506);
    write_u64(&mut buf, 7, 0x0708090a0b0c0d0e);
    assert_eq!(buf, [0, 2, 1, 6, 5, 4, 3, 0x0e, 0x0d, 0x0c, 0x0b, 0x0a, 9, 8, 7, 0]);
}

fn valid_data() -> DataShredFields {
    DataShredFields {
        variant: 0x93,
        slot: 100,
        index: 95,
        version: 7,
        fec_set_index: 64,
        parent_offset: 1,
        flags: 0x40,
        data_size: 500,
    }
}

fn valid_code() -> CodeShredFields {
    CodeShredFields {
        variant: 0x65,
        slot: 100,
        index: 70,
        version: 7,
        fec_set_index: 64,
        num_data: 32,
        num_coding: 32,
        position: 6,
    }
}

#[test]
fn data_shred_layout_roundtrip() {
    let f = valid_data();
    let buf = build_data_shred(&f);
    assert_eq!(buf.len(), DATA_PAYLOAD_SZ);
    assert_eq!(buf[64], 0x93);
    assert_eq!(&buf[65..73], &100u64.to_le_bytes());
    assert_eq!(read_data_shred(&buf), f);
}

#[test]
fn code_shred_layout_roundtrip() {
    let f = valid_code();
    let buf = build_code_shred(&f);
    assert_eq!(buf.len(), CODE_PAYLOAD_SZ);
    assert_eq!(&buf[87..89], &6u16.to_le_bytes());
    assert_eq!(read_code_shred(&buf), f);
}

#[test]
fn data_shred_invariants_cases() {
    assert!(data_shred_invariants(&valid_data()));
    let mut f = valid_data();
    f.flags = 0x40;
    f.index = 94; // completion flag only on the last shred of a set
    assert!(!data_shred_invariants(&f));
    let mut f = valid_data();
    f.data_size = 1171 - 20 * 3 + 1;
    assert!(!data_shred_invariants(&f));
    f.data_size = 1171 - 20 * 3;
    assert!(data_shred_invariants(&f));
    f.variant = 0xB3;
    assert!(!data_shred_invariants(&f));
    let mut f = valid_data();
    f.parent_offset = 0;
    assert!(!data_shred_invariants(&f));
    f.slot = 0;
    assert!(data_shred_invariants(&f));
    let mut f = valid_data();
    f.fec_set_index = 63;
    assert!(!data_shred_invariants(&f));
}

#[test]
fn code_shred_invariants_cases() {
    assert!(code_shred_invariants(&valid_code()));
    let mut f = valid_code();
    f.num_data = 31;
    assert!(!code_shred_invariants(&f));
    let mut f = valid_code();
    f.position = 71;
    assert!(!code_shred_invariants(&f));
    let mut f = valid_code();
    f.variant = 0x85;
    assert!(!code_shred_invariants(&f));
    let mut f = valid_code();
    f.index = 96;
    assert!(!code_shred_invariants(&f));
}
