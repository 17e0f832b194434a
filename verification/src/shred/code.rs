//! Checks on coding shreds.
use vstd::prelude::*;
use crate::shred::{
    DATA_SHREDS_PER_FEC_BLOCK, LARGER_SHRED_LIMITS_FACTOR, MAX_CODE_SHREDS_PER_SLOT,
    MAX_DATA_SHREDS_PER_SLOT, ShredError, ShredType,
};

verus! {

/// The header fields of a coding shred that its checks read.
#[derive(Clone, Copy, Debug, PartialEq, Eq, Structural)]
pub struct CodingShredHeaders {
    /// Index of the shred in its slot.
    pub index: u32,
    /// Index of the first data shred of its erasure set.
    pub fec_set_index: u32,
    pub num_data_shreds: u16,
    pub num_coding_shreds: u16,
    /// Position of the shred among the coding shreds of its set.
    pub position: u16,
}

/// The per-slot limits on data and coding shreds.
pub open spec fn shred_limits(larger_shred_limits: bool) -> (usize, usize) {
    if larger_shred_limits {
        (
            (LARGER_SHRED_LIMITS_FACTOR * MAX_DATA_SHREDS_PER_SLOT) as usize,
            (LARGER_SHRED_LIMITS_FACTOR * MAX_CODE_SHREDS_PER_SLOT) as usize,
        )
    } else {
        (MAX_DATA_SHREDS_PER_SLOT, MAX_CODE_SHREDS_PER_SLOT)
    }
}

/// Index of the first coding shred of the set: the shred's index less its position.
pub open spec fn spec_first_coding_index(h: CodingShredHeaders) -> Option<u32> {
    if h.position as u32 <= h.index {
        Some((h.index - h.position) as u32)
    } else {
        None
    }
}

/// The shard index of a coding shred within its erasure set (data shards first),
/// when the set has at least one data and one coding shred, its last data and
/// coding indexes fit in `u32` and stay under the per-slot limits, and the
/// position is among the coding shreds.
pub open spec fn spec_erasure_shard_index(h: CodingShredHeaders, larger_shred_limits: bool) -> Option<
    usize,
> {
    let (max_data, max_code) = shred_limits(larger_shred_limits);
    if h.num_data_shreds < 1 || h.num_coding_shreds < 1 {
        None
    } else if h.fec_set_index + (h.num_data_shreds - 1) > u32::MAX {
        None
    } else if h.fec_set_index + (h.num_data_shreds - 1) >= max_data {
        None
    } else if spec_first_coding_index(h) is None {
        None
    } else if spec_first_coding_index(h).unwrap() + (h.num_coding_shreds - 1) > u32::MAX {
        None
    } else if spec_first_coding_index(h).unwrap() + (h.num_coding_shreds - 1) >= max_code {
        None
    } else if h.position < h.num_coding_shreds {
        Some((h.position + h.num_data_shreds) as usize)
    } else {
        None
    }
}

/// Index of the first coding shred of the set.
pub fn first_coding_index(h: &CodingShredHeaders) -> (r: Option<u32>)
    ensures
        r == spec_first_coding_index(*h),
{
    h.index.checked_sub(h.position as u32)
}

/// The shard index of a coding shred within its erasure set; the per-slot
/// limits are the larger ones when `larger_shred_limits` is set.
pub fn erasure_shard_index(h: &CodingShredHeaders, larger_shred_limits: bool) -> (r: Option<usize>)
    ensures
        r == spec_erasure_shard_index(*h, larger_shred_limits),
{
    let (max_data_shred_per_slot, max_code_shreds_per_slot): (usize, usize) =
        if larger_shred_limits {
        (
            LARGER_SHRED_LIMITS_FACTOR * MAX_DATA_SHREDS_PER_SLOT,
            LARGER_SHRED_LIMITS_FACTOR * MAX_CODE_SHREDS_PER_SLOT,
        )
    } else {
        (MAX_DATA_SHREDS_PER_SLOT, MAX_CODE_SHREDS_PER_SLOT)
    };
    let data_minus_one = h.num_data_shreds.checked_sub(1)?;
    let last_data = h.fec_set_index.checked_add(data_minus_one as u32)?;
    if last_data as usize >= max_data_shred_per_slot {
        return None;
    }
    let coding_minus_one = h.num_coding_shreds.checked_sub(1)?;
    let first_coding = first_coding_index(h)?;
    let last_coding = first_coding.checked_add(coding_minus_one as u32)?;
    if last_coding as usize >= max_code_shreds_per_slot {
        return None;
    }
    let num_data_shreds = h.num_data_shreds as usize;
    let num_coding_shreds = h.num_coding_shreds as usize;
    let position = h.position as usize;
    let fec_set_size = num_data_shreds + num_coding_shreds;
    let index = position + num_data_shreds;
    if index < fec_set_size {
        Some(index)
    } else {
        None
    }
}

/// The verdict on a coding shred, checked in order: the payload has its
/// fixed size; the index is under the per-slot limit of coding shreds; there
/// are at most eight sets' worth of coding shreds; the shard index exists;
/// and the erasure shard can be taken out of the payload (`erasure_shard`).
pub open spec fn spec_sanitize(
    h: CodingShredHeaders,
    payload_len: usize,
    size_of_payload: usize,
    larger_shred_limits: bool,
    erasure_shard: Result<(), ShredError>,
) -> Result<(), ShredError> {
    let (_, max_code) = shred_limits(larger_shred_limits);
    if payload_len != size_of_payload {
        Err(ShredError::InvalidPayloadSize(payload_len))
    } else if h.index >= max_code {
        Err(ShredError::InvalidShredIndex(ShredType::Code, h.index))
    } else if h.num_coding_shreds > 8 * DATA_SHREDS_PER_FEC_BLOCK {
        Err(ShredError::InvalidNumCodingShreds(h.num_coding_shreds))
    } else if spec_erasure_shard_index(h, larger_shred_limits) is None {
        Err(ShredError::InvalidErasureShardIndex)
    } else {
        erasure_shard
    }
}

/// Checks a coding shred; `erasure_shard` is the outcome of taking its erasure
/// shard out of the payload.
pub fn sanitize(
    h: &CodingShredHeaders,
    payload_len: usize,
    size_of_payload: usize,
    larger_shred_limits: bool,
    erasure_shard: Result<(), ShredError>,
) -> (r: Result<(), ShredError>)
    ensures
        r == spec_sanitize(*h, payload_len, size_of_payload, larger_shred_limits, erasure_shard),
{
    if payload_len != size_of_payload {
        return Err(ShredError::InvalidPayloadSize(payload_len));
    }
    let max_code_shreds_per_slot: usize = if larger_shred_limits {
        LARGER_SHRED_LIMITS_FACTOR * MAX_CODE_SHREDS_PER_SLOT
    } else {
        MAX_CODE_SHREDS_PER_SLOT
    };
    if h.index as usize >= max_code_shreds_per_slot {
        return Err(ShredError::InvalidShredIndex(ShredType::Code, h.index));
    }
    let num_coding_shreds = h.num_coding_shreds as usize;
    if num_coding_shreds > 8 * DATA_SHREDS_PER_FEC_BLOCK {
        return Err(ShredError::InvalidNumCodingShreds(h.num_coding_shreds));
    }
    if erasure_shard_index(h, larger_shred_limits).is_none() {
        return Err(ShredError::InvalidErasureShardIndex);
    }
    erasure_shard
}

/// A shard index, when there is one, lies among the coding shards of the set
/// (after the data shards) at the shred's position.
pub proof fn law_erasure_shard_index_in_coding_range(h: CodingShredHeaders, larger: bool)
    requires
        spec_erasure_shard_index(h, larger) is Some,
    ensures
        h.num_data_shreds <= spec_erasure_shard_index(h, larger).unwrap(),
        spec_erasure_shard_index(h, larger).unwrap() < h.num_data_shreds + h.num_coding_shreds,
        spec_erasure_shard_index(h, larger).unwrap() == h.num_data_shreds + h.position,
{
}

/// A coding shred that passes the checks has an index under the per-slot
/// limit, at most eight sets' worth of coding shreds, and a shard index.
pub proof fn law_sanitized_code_shred_bounds(
    h: CodingShredHeaders,
    payload_len: usize,
    size_of_payload: usize,
    larger: bool,
    erasure_shard: Result<(), ShredError>,
)
    requires
        spec_sanitize(h, payload_len, size_of_payload, larger, erasure_shard) is Ok,
    ensures
        payload_len == size_of_payload,
        h.index < shred_limits(larger).1,
        h.num_coding_shreds <= 8 * DATA_SHREDS_PER_FEC_BLOCK,
        spec_erasure_shard_index(h, larger) is Some,
{
}

/// With the larger limits a set may reach 32 times the ordinary per-slot
/// counts; otherwise the ordinary counts bound it. The shard index exists
/// exactly when the set has data and coding shreds, its last data index
/// (first data index plus the data count less one) and its last coding index
/// (the shred's index less its position, plus the coding count less one) stay
/// under those bounds, and the position is among the coding shreds; it is then
/// the data count plus the position.
pub proof fn law_erasure_shard_index_under_limits(h: CodingShredHeaders, larger: bool)
    ensures
        ({
            let data_limit: int = if larger { 32 * MAX_DATA_SHREDS_PER_SLOT } else { MAX_DATA_SHREDS_PER_SLOT as int };
            let code_limit: int = if larger { 32 * MAX_CODE_SHREDS_PER_SLOT } else { MAX_CODE_SHREDS_PER_SLOT as int };
            spec_erasure_shard_index(h, larger) == if h.num_data_shreds >= 1 && h.num_coding_shreds >= 1
                && h.fec_set_index + h.num_data_shreds - 1 < data_limit && h.position <= h.index
                && h.index - h.position + h.num_coding_shreds - 1 < code_limit && h.position
                < h.num_coding_shreds {
                Some((h.num_data_shreds + h.position) as usize)
            } else {
                None
            }
        }),
{
}

/// The verdict on a coding shred, in order: a payload of the wrong size is
/// refused with its size; then an index at or past the per-slot limit of
/// coding shreds (32 times the ordinary one with the larger limits) is
/// refused with the index; then more than 256 coding shreds are refused with
/// their count; then a shred without a shard index is refused; and a shred
/// that passes all of these gets the outcome of taking its erasure shard out.
pub proof fn law_code_shred_verdicts(
    h: CodingShredHeaders,
    payload_len: usize,
    size_of_payload: usize,
    larger: bool,
    erasure_shard: Result<(), ShredError>,
)
    ensures
        ({
            let code_limit: int = if larger { 32 * MAX_CODE_SHREDS_PER_SLOT } else { MAX_CODE_SHREDS_PER_SLOT as int };
            spec_sanitize(h, payload_len, size_of_payload, larger, erasure_shard) == if payload_len
                != size_of_payload {
                Err(ShredError::InvalidPayloadSize(payload_len))
            } else if h.index >= code_limit {
                Err(ShredError::InvalidShredIndex(ShredType::Code, h.index))
            } else if h.num_coding_shreds > 256 {
                Err(ShredError::InvalidNumCodingShreds(h.num_coding_shreds))
            } else if spec_erasure_shard_index(h, larger) is None {
                Err(ShredError::InvalidErasureShardIndex)
            } else {
                erasure_shard
            }
        }),
{
}

} // verus!
