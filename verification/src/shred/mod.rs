//! Shreds: the coding-shred checks, and the byte layout of shred headers with
//! the header invariants that a well-formed shred satisfies.
pub mod code;
pub mod layout;

use vstd::prelude::*;

verus! {

/// Most data shreds a slot may hold under the consensus limits.
pub const MAX_DATA_SHREDS_PER_SLOT: usize = 32_768;

/// Most coding shreds a slot may hold under the consensus limits.
pub const MAX_CODE_SHREDS_PER_SLOT: usize = 32_768;

/// Data shreds in a forward-error-correction set.
pub const DATA_SHREDS_PER_FEC_BLOCK: usize = 32;

/// Factor by which the per-slot limits grow when larger blocks are enabled.
pub const LARGER_SHRED_LIMITS_FACTOR: usize = 32;

/// The kind of a shred.
#[derive(Clone, Copy, Debug, PartialEq, Eq, Structural)]
pub enum ShredType {
    Data,
    Code,
}

/// Why a shred is rejected.
#[derive(Clone, Copy, Debug, PartialEq, Eq, Structural)]
pub enum ShredError {
    InvalidPayloadSize(usize),
    InvalidShredIndex(ShredType, u32),
    InvalidNumCodingShreds(u16),
    InvalidErasureShardIndex,
    InvalidErasureShard,
}

} // verus!
