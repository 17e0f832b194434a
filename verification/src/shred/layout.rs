//! Byte layout of shred headers, and the header invariants of well-formed shreds.
use vstd::prelude::*;
use crate::wire::{
    get_u16_le, get_u32_le, get_u64_le, le_bytes_u16, le_bytes_u32, le_bytes_u64,
    lemma_u16_roundtrip, lemma_u32_roundtrip, lemma_u64_roundtrip, u16_le_at, u32_le_at,
    u64_le_at,
};

verus! {

/// Offset of the variant byte.
pub const OFF_VARIANT: usize = 64;
/// Offset of the slot (`u64`).
pub const OFF_SLOT: usize = 65;
/// Offset of the shred index (`u32`).
pub const OFF_INDEX: usize = 73;
/// Offset of the shred version (`u16`).
pub const OFF_VERSION: usize = 77;
/// Offset of the erasure-set index (`u32`).
pub const OFF_FEC_SET_INDEX: usize = 79;
/// Offset of a data shred's parent offset (`u16`).
pub const OFF_PARENT_OFFSET: usize = 83;
/// Offset of a data shred's flags byte.
pub const OFF_DATA_FLAGS: usize = 85;
/// Offset of a data shred's size (`u16`).
pub const OFF_DATA_SIZE: usize = 86;
/// Offset of a coding shred's count of data shreds (`u16`).
pub const OFF_NUM_DATA: usize = 83;
/// Offset of a coding shred's count of coding shreds (`u16`).
pub const OFF_NUM_CODING: usize = 85;
/// Offset of a coding shred's position (`u16`).
pub const OFF_POSITION: usize = 87;
/// Payload size of a data shred.
pub const DATA_PAYLOAD_SZ: usize = 1203;
/// Payload size of a coding shred.
pub const CODE_PAYLOAD_SZ: usize = 1228;

/// `s` with `b` written over it from `off` on.
pub open spec fn splice(s: Seq<u8>, off: int, b: Seq<u8>) -> Seq<u8> {
    s.subrange(0, off) + b + s.subrange(off + b.len(), s.len() as int)
}

/// Writes a little-endian `u16` at the given offset.
pub fn write_u16(buf: &mut [u8], off: usize, v: u16)
    requires
        off + 2 <= old(buf)@.len(),
    ensures
        final(buf)@ == splice(old(buf)@, off as int, le_bytes_u16(v)),
        forall|i: int|
            0 <= i < old(buf)@.len() && (i < off || off + 2 <= i) ==> #[trigger] final(buf)@[i]
                == old(buf)@[i],
{
    buf[off] = v as u8;
    buf[off + 1] = (v >> 8u16) as u8;
    assert(buf@ =~= splice(old(buf)@, off as int, le_bytes_u16(v)));
}

/// Writes a little-endian `u32` at the given offset.
pub fn write_u32(buf: &mut [u8], off: usize, v: u32)
    requires
        off + 4 <= old(buf)@.len(),
    ensures
        final(buf)@ == splice(old(buf)@, off as int, le_bytes_u32(v)),
        forall|i: int|
            0 <= i < old(buf)@.len() && (i < off || off + 4 <= i) ==> #[trigger] final(buf)@[i]
                == old(buf)@[i],
{
    buf[off] = v as u8;
    buf[off + 1] = (v >> 8u32) as u8;
    buf[off + 2] = (v >> 16u32) as u8;
    buf[off + 3] = (v >> 24u32) as u8;
    assert(buf@ =~= splice(old(buf)@, off as int, le_bytes_u32(v)));
}

/// Writes a little-endian `u64` at the given offset.
pub fn write_u64(buf: &mut [u8], off: usize, v: u64)
    requires
        off + 8 <= old(buf)@.len(),
    ensures
        final(buf)@ == splice(old(buf)@, off as int, le_bytes_u64(v)),
        forall|i: int|
            0 <= i < old(buf)@.len() && (i < off || off + 8 <= i) ==> #[trigger] final(buf)@[i]
                == old(buf)@[i],
{
    buf[off] = v as u8;
    buf[off + 1] = (v >> 8u64) as u8;
    buf[off + 2] = (v >> 16u64) as u8;
    buf[off + 3] = (v >> 24u64) as u8;
    buf[off + 4] = (v >> 32u64) as u8;
    buf[off + 5] = (v >> 40u64) as u8;
    buf[off + 6] = (v >> 48u64) as u8;
    buf[off + 7] = (v >> 56u64) as u8;
    assert(buf@ =~= splice(old(buf)@, off as int, le_bytes_u64(v)));
}

/// The header fields of a data shred.
#[derive(Clone, Copy, Debug, PartialEq, Eq, Structural)]
pub struct DataShredFields {
    pub variant: u8,
    pub slot: u64,
    pub index: u32,
    pub version: u16,
    pub fec_set_index: u32,
    pub parent_offset: u16,
    pub flags: u8,
    pub data_size: u16,
}

/// The header fields of a coding shred.
#[derive(Clone, Copy, Debug, PartialEq, Eq, Structural)]
pub struct CodeShredFields {
    pub variant: u8,
    pub slot: u64,
    pub index: u32,
    pub version: u16,
    pub fec_set_index: u32,
    pub num_data: u16,
    pub num_coding: u16,
    pub position: u16,
}

/// The header invariants of a well-formed data shred: the index is in the slot
/// and in its erasure set, the set is aligned and in the slot, the variant is a
/// chained (possibly resigned) data variant, the completion flags are
/// consistent, the parent offset fits the slot (zero exactly at slot zero), and
/// the data size fits the capacity that the variant's proof size leaves.
pub open spec fn spec_data_shred_invariants(f: DataShredFields) -> bool {
    &&& f.variant & 0xC0 != 0x40
    &&& f.index < 32_768
    &&& f.fec_set_index <= f.index && f.index < f.fec_set_index + 32
    &&& f.fec_set_index % 32 == 0
    &&& f.fec_set_index <= 32_736
    &&& (f.variant & 0xF0 == 0x90 || f.variant & 0xF0 == 0xB0)
    &&& f.flags & 0xC0 != 0x80
    &&& (f.flags & 0x40 == 0 || f.index % 32 == 31)
    &&& f.parent_offset as u64 <= f.slot
    &&& ((f.parent_offset == 0) == (f.slot == 0))
    &&& 88 <= f.data_size
    &&& if f.variant & 0xF0 == 0x90 {
        f.data_size <= 1171 - 20 * (f.variant & 0x0F)
    } else {
        f.data_size <= 1107 - 20 * (f.variant & 0x0F)
    }
}

/// The header invariants of a well-formed coding shred: a coding variant,
/// chained (possibly resigned); the index in the slot and in its erasure set,
/// the set aligned and in the slot; the position within the 32 coding shreds
/// of a full set of 32 data and 32 coding shreds, and the first coding index
/// in the slot.
pub open spec fn spec_code_shred_invariants(f: CodeShredFields) -> bool {
    &&& f.variant & 0xC0 == 0x40
    &&& f.index < 32_768
    &&& f.fec_set_index <= f.index && f.index < f.fec_set_index + 32
    &&& f.fec_set_index % 32 == 0
    &&& f.fec_set_index <= 32_736
    &&& (f.variant & 0xF0 == 0x60 || f.variant & 0xF0 == 0x70)
    &&& f.position < 32
    &&& f.position as u32 <= f.index
    &&& f.num_coding == 32 && f.num_data == 32
    &&& f.index - f.position <= 32_736
}

/// A data shred's header fields pass the checks exactly when each numbered
/// condition of the header proof holds: not a coding variant (1); index under
/// 32768 (2); index within the 32 indexes of its set (3); set aligned to 32
/// (4) and starting at most at 32736 (5); a chained or chained-resigned data
/// variant (6); completion flags not the reserved pattern (8) and a slot-end
/// flag only on the last index of a set (9); parent offset at most the slot
/// (10) and zero exactly when the slot is (11); and a data size of at least 88
/// and at most what the variant's proof leaves (12).
pub proof fn law_data_shred_invariants_conditions(f: DataShredFields)
    ensures
        spec_data_shred_invariants(f) <==> {
            &&& f.variant & 0xC0 != 0x40
            &&& f.index < 32_768
            &&& (f.fec_set_index <= f.index) && (f.index < f.fec_set_index + 32)
            &&& f.fec_set_index % 32 == 0
            &&& f.fec_set_index <= 32_736
            &&& (f.variant & 0xF0 == 0x90) || (f.variant & 0xF0 == 0xB0)
            &&& f.flags & 0xC0 != 0x80
            &&& (f.flags & 0x40 == 0) || (f.index % 32 == 31)
            &&& (f.parent_offset as u64) <= f.slot
            &&& !((f.parent_offset == 0) ^ (f.slot == 0))
            &&& if f.variant & 0xF0 == 0x90 {
                (88 <= f.data_size) && (f.data_size <= 1171 - 20 * ((f.variant as u16) & 0x0F))
            } else {
                (88 <= f.data_size) && (f.data_size <= 1107 - 20 * ((f.variant as u16) & 0x0F))
            }
        },
{
    let v = f.variant;
    assert((v as u16) & 0x0F == (v & 0x0F) as u16) by (bit_vector);
}

/// A data shred whose header fields pass the checks never names a parent
/// after its own slot, and names itself as parent only in slot zero.
pub proof fn law_data_shred_parent_within_slot(f: DataShredFields)
    requires
        spec_data_shred_invariants(f),
    ensures
        f.parent_offset as u64 <= f.slot,
        f.parent_offset == 0 <==> f.slot == 0,
{
}

/// A coding shred's header fields pass the checks exactly when each numbered
/// condition of the header proof holds: a coding variant (1); index under
/// 32768 (2); index within the 32 indexes of its set (3); set aligned to 32
/// (4) and starting at most at 32736 (5); a chained or chained-resigned coding
/// variant (6); position under 32 (13) and at most the index (14); a set of
/// 32 data and 32 coding shreds (15); and its first coding index at most
/// 32736 (16).
pub proof fn law_code_shred_invariants_conditions(f: CodeShredFields)
    ensures
        spec_code_shred_invariants(f) <==> {
            &&& f.variant & 0xC0 == 0x40
            &&& f.index < 32_768
            &&& (f.fec_set_index <= f.index) && (f.index < f.fec_set_index + 32)
            &&& f.fec_set_index % 32 == 0
            &&& f.fec_set_index <= 32_736
            &&& (f.variant & 0xF0 == 0x60) || (f.variant & 0xF0 == 0x70)
            &&& f.position < 32
            &&& (f.position as u32) <= f.index
            &&& (f.num_coding == 32) && (f.num_data == 32)
            &&& f.index - (f.position as u32) <= 32_736
        },
{
}

/// A shred's header sits after its 64-byte signature: the variant byte at 64,
/// the slot at 65, the index at 73, the version at 77 and the erasure-set
/// index at 79, all little-endian; a data shred then has its parent offset at
/// 83, its flags byte at 85 and its size at 86; a coding shred its data and
/// coding counts at 83 and 85 and its position at 87.
pub proof fn law_header_offsets(s: Seq<u8>)
    ensures
        spec_read_data_shred(s) == (DataShredFields {
            variant: s[64],
            slot: u64_le_at(s, 65),
            index: u32_le_at(s, 73),
            version: u16_le_at(s, 77),
            fec_set_index: u32_le_at(s, 79),
            parent_offset: u16_le_at(s, 83),
            flags: s[85],
            data_size: u16_le_at(s, 86),
        }),
        spec_read_code_shred(s) == (CodeShredFields {
            variant: s[64],
            slot: u64_le_at(s, 65),
            index: u32_le_at(s, 73),
            version: u16_le_at(s, 77),
            fec_set_index: u32_le_at(s, 79),
            num_data: u16_le_at(s, 83),
            num_coding: u16_le_at(s, 85),
            position: u16_le_at(s, 87),
        }),
{
}

/// Whether a data shred's header fields satisfy the invariants.
pub fn data_shred_invariants(f: &DataShredFields) -> (r: bool)
    ensures
        r == spec_data_shred_invariants(*f),
{
    let kind = f.variant & 0xF0;
    let v = f.variant;
    let proof_size = (v & 0x0F) as u16;
    assert(v & 0x0F <= 15) by (bit_vector);
    let max_size: u16 = if kind == 0x90 {
        1171 - 20 * proof_size
    } else {
        1107 - 20 * proof_size
    };
    f.variant & 0xC0 != 0x40 && f.index < 32_768 && f.fec_set_index <= f.index && (f.index
        - f.fec_set_index) < 32 && f.fec_set_index % 32 == 0 && f.fec_set_index <= 32_736 && (
    kind == 0x90 || kind == 0xB0) && f.flags & 0xC0 != 0x80 && (f.flags & 0x40 == 0 || f.index
        % 32 == 31) && f.parent_offset as u64 <= f.slot && ((f.parent_offset == 0) == (f.slot
        == 0)) && 88 <= f.data_size && f.data_size <= max_size
}

/// Whether a coding shred's header fields satisfy the invariants.
pub fn code_shred_invariants(f: &CodeShredFields) -> (r: bool)
    ensures
        r == spec_code_shred_invariants(*f),
{
    let kind = f.variant & 0xF0;
    f.variant & 0xC0 == 0x40 && f.index < 32_768 && f.fec_set_index <= f.index && (f.index
        - f.fec_set_index) < 32 && f.fec_set_index % 32 == 0 && f.fec_set_index <= 32_736 && (
    kind == 0x60 || kind == 0x70) && f.position < 32 && f.position as u32 <= f.index && f.num_coding
        == 32 && f.num_data == 32 && f.index - (f.position as u32) <= 32_736
}

/// The header fields found in a data shred's bytes.
pub open spec fn spec_read_data_shred(s: Seq<u8>) -> DataShredFields {
    DataShredFields {
        variant: s[OFF_VARIANT as int],
        slot: u64_le_at(s, OFF_SLOT as int),
        index: u32_le_at(s, OFF_INDEX as int),
        version: u16_le_at(s, OFF_VERSION as int),
        fec_set_index: u32_le_at(s, OFF_FEC_SET_INDEX as int),
        parent_offset: u16_le_at(s, OFF_PARENT_OFFSET as int),
        flags: s[OFF_DATA_FLAGS as int],
        data_size: u16_le_at(s, OFF_DATA_SIZE as int),
    }
}

/// The header fields found in a coding shred's bytes.
pub open spec fn spec_read_code_shred(s: Seq<u8>) -> CodeShredFields {
    CodeShredFields {
        variant: s[OFF_VARIANT as int],
        slot: u64_le_at(s, OFF_SLOT as int),
        index: u32_le_at(s, OFF_INDEX as int),
        version: u16_le_at(s, OFF_VERSION as int),
        fec_set_index: u32_le_at(s, OFF_FEC_SET_INDEX as int),
        num_data: u16_le_at(s, OFF_NUM_DATA as int),
        num_coding: u16_le_at(s, OFF_NUM_CODING as int),
        position: u16_le_at(s, OFF_POSITION as int),
    }
}

/// Reads the header fields of a data shred.
pub fn read_data_shred(s: &[u8]) -> (f: DataShredFields)
    requires
        OFF_DATA_SIZE + 2 <= s@.len(),
    ensures
        f == spec_read_data_shred(s@),
{
    DataShredFields {
        variant: s[OFF_VARIANT],
        slot: get_u64_le(s, OFF_SLOT),
        index: get_u32_le(s, OFF_INDEX),
        version: get_u16_le(s, OFF_VERSION),
        fec_set_index: get_u32_le(s, OFF_FEC_SET_INDEX),
        parent_offset: get_u16_le(s, OFF_PARENT_OFFSET),
        flags: s[OFF_DATA_FLAGS],
        data_size: get_u16_le(s, OFF_DATA_SIZE),
    }
}

/// Reads the header fields of a coding shred.
pub fn read_code_shred(s: &[u8]) -> (f: CodeShredFields)
    requires
        OFF_POSITION + 2 <= s@.len(),
    ensures
        f == spec_read_code_shred(s@),
{
    CodeShredFields {
        variant: s[OFF_VARIANT],
        slot: get_u64_le(s, OFF_SLOT),
        index: get_u32_le(s, OFF_INDEX),
        version: get_u16_le(s, OFF_VERSION),
        fec_set_index: get_u32_le(s, OFF_FEC_SET_INDEX),
        num_data: get_u16_le(s, OFF_NUM_DATA),
        num_coding: get_u16_le(s, OFF_NUM_CODING),
        position: get_u16_le(s, OFF_POSITION),
    }
}

/// Builds a zeroed data-shred payload carrying the given header fields.
pub fn build_data_shred(f: &DataShredFields) -> (buf: Vec<u8>)
    ensures
        buf@.len() == DATA_PAYLOAD_SZ,
        spec_read_data_shred(buf@) == *f,
        forall|i: int|
            0 <= i < buf@.len() && (i < OFF_VARIANT || OFF_DATA_SIZE + 2 <= i) ==> #[trigger] buf@[i]
                == 0,
{
    let mut buf: Vec<u8> = vec![0u8; DATA_PAYLOAD_SZ];
    buf.set(OFF_VARIANT, f.variant);
    let ghost s0 = buf@;
    write_u64(buf.as_mut_slice(), OFF_SLOT, f.slot);
    let ghost s1 = buf@;
    write_u32(buf.as_mut_slice(), OFF_INDEX, f.index);
    let ghost s2 = buf@;
    write_u16(buf.as_mut_slice(), OFF_VERSION, f.version);
    let ghost s3 = buf@;
    write_u32(buf.as_mut_slice(), OFF_FEC_SET_INDEX, f.fec_set_index);
    let ghost s4 = buf@;
    write_u16(buf.as_mut_slice(), OFF_PARENT_OFFSET, f.parent_offset);
    buf.set(OFF_DATA_FLAGS, f.flags);
    let ghost s5 = buf@;
    write_u16(buf.as_mut_slice(), OFF_DATA_SIZE, f.data_size);
    proof {
        let s = buf@;
        lemma_u64_roundtrip(f.slot);
        lemma_u32_roundtrip(f.index);
        lemma_u16_roundtrip(f.version);
        lemma_u32_roundtrip(f.fec_set_index);
        lemma_u16_roundtrip(f.parent_offset);
        lemma_u16_roundtrip(f.data_size);
        assert(s.subrange(OFF_SLOT as int, OFF_SLOT + 8) =~= le_bytes_u64(f.slot));
        assert(s[OFF_VARIANT as int] == f.variant);
        assert(s[OFF_DATA_FLAGS as int] == f.flags);
    }
    buf
}

/// Builds a zeroed coding-shred payload carrying the given header fields.
pub fn build_code_shred(f: &CodeShredFields) -> (buf: Vec<u8>)
    ensures
        buf@.len() == CODE_PAYLOAD_SZ,
        spec_read_code_shred(buf@) == *f,
        forall|i: int|
            0 <= i < buf@.len() && (i < OFF_VARIANT || OFF_POSITION + 2 <= i) ==> #[trigger] buf@[i]
                == 0,
{
    let mut buf: Vec<u8> = vec![0u8; CODE_PAYLOAD_SZ];
    buf.set(OFF_VARIANT, f.variant);
    write_u64(buf.as_mut_slice(), OFF_SLOT, f.slot);
    write_u32(buf.as_mut_slice(), OFF_INDEX, f.index);
    write_u16(buf.as_mut_slice(), OFF_VERSION, f.version);
    write_u32(buf.as_mut_slice(), OFF_FEC_SET_INDEX, f.fec_set_index);
    write_u16(buf.as_mut_slice(), OFF_NUM_DATA, f.num_data);
    write_u16(buf.as_mut_slice(), OFF_NUM_CODING, f.num_coding);
    write_u16(buf.as_mut_slice(), OFF_POSITION, f.position);
    proof {
        let s = buf@;
        lemma_u64_roundtrip(f.slot);
        lemma_u32_roundtrip(f.index);
        lemma_u16_roundtrip(f.version);
        lemma_u32_roundtrip(f.fec_set_index);
        lemma_u16_roundtrip(f.num_data);
        lemma_u16_roundtrip(f.num_coding);
        lemma_u16_roundtrip(f.position);
        assert(s.subrange(OFF_SLOT as int, OFF_SLOT + 8) =~= le_bytes_u64(f.slot));
        assert(s[OFF_VARIANT as int] == f.variant);
    }
    buf
}

} // verus!
