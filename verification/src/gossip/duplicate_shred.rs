//! A chunk of a proof that a leader produced two different shreds for one
//! slot and index, as gossip carries it.
use vstd::prelude::*;
use crate::wire::{get_bytes, get_u64_le, get_u16_le, lemma_extend_reads, u16_le_at, u64_le_at};

verus! {

/// Byte that marks a data shred.
pub const SHRED_TYPE_DATA: u8 = 0xA5;

/// Byte that marks a coding shred.
pub const SHRED_TYPE_CODE: u8 = 0x5A;

/// Number of duplicate-proof slots that a node may fill.
pub const MAX_DUPLICATE_SHREDS: u16 = 512;

/// Model of a duplicate-proof chunk. The shred index and shred type fields are
/// kept as read and carry no meaning.
pub struct SpecDuplicateShred {
    pub from: Seq<u8>,
    pub wallclock: u64,
    pub slot: u64,
    pub shred_type: u8,
    pub num_chunks: u8,
    pub chunk_index: u8,
    pub chunk: Seq<u8>,
}

#[derive(Debug)]
pub struct DuplicateShred {
    pub from: Vec<u8>,
    pub wallclock: u64,
    pub slot: u64,
    pub shred_type: u8,
    pub num_chunks: u8,
    pub chunk_index: u8,
    pub chunk: Vec<u8>,
}

impl View for DuplicateShred {
    type V = SpecDuplicateShred;

    open spec fn view(&self) -> SpecDuplicateShred {
        SpecDuplicateShred {
            from: self.from@,
            wallclock: self.wallclock,
            slot: self.slot,
            shred_type: self.shred_type,
            num_chunks: self.num_chunks,
            chunk_index: self.chunk_index,
            chunk: self.chunk@,
        }
    }
}

/// A duplicate-proof entry: a `u16` slot number, then the chunk: key,
/// wallclock, slot, an unused `u32`, a shred-type byte (data or coding),
/// chunk count, chunk index, and the counted chunk bytes.
pub open spec fn spec_parse_duplicate_shred(s: Seq<u8>, pos: int) -> Option<
    (u16, SpecDuplicateShred, int),
> {
    if 0 <= pos && pos + 65 <= s.len() {
        let q = pos + 2;
        let n = u64_le_at(s, q + 55);
        let shred_type = s[q + 52];
        if (shred_type == SHRED_TYPE_DATA || shred_type == SHRED_TYPE_CODE) && q + 63 + n
            <= s.len() {
            Some(
                (
                    u16_le_at(s, pos),
                    SpecDuplicateShred {
                        from: s.subrange(q, q + 32),
                        wallclock: u64_le_at(s, q + 32),
                        slot: u64_le_at(s, q + 40),
                        shred_type,
                        num_chunks: s[q + 53],
                        chunk_index: s[q + 54],
                        chunk: s.subrange(q + 63, q + 63 + n),
                    },
                    q + 63 + n,
                ),
            )
        } else {
            None
        }
    } else {
        None
    }
}

pub fn parse_duplicate_shred(s: &[u8], pos: usize) -> (r: Option<(u16, DuplicateShred, usize)>)
    ensures
        match (r, spec_parse_duplicate_shred(s@, pos as int)) {
            (Some((ix, d, p)), Some((six, sd, sp))) => ix == six && d@ == sd && p == sp,
            (None, None) => true,
            _ => false,
        },
{
    if pos > s.len() || s.len() - pos < 65 {
        return None;
    }
    let q = pos + 2;
    let n = get_u64_le(s, q + 55);
    let shred_type = s[q + 52];
    if shred_type != SHRED_TYPE_DATA && shred_type != SHRED_TYPE_CODE {
        return None;
    }
    let avail = s.len() - (q + 63);
    if n > avail as u64 {
        return None;
    }
    let n = n as usize;
    let chunk = get_bytes(s, q + 63, n);
    let from = get_bytes(s, q, 32);
    let ix = get_u16_le(s, pos);
    Some(
        (
            ix,
            DuplicateShred {
                from,
                wallclock: get_u64_le(s, q + 32),
                slot: get_u64_le(s, q + 40),
                shred_type,
                num_chunks: s[q + 53],
                chunk_index: s[q + 54],
                chunk,
            },
            q + 63 + n,
        ),
    )
}

/// A duplicate-proof entry read from `s` reads the same from any extension of
/// `s`, and ends within `s`.
pub proof fn lemma_extend_duplicate_shred(s: Seq<u8>, t: Seq<u8>, pos: int)
    requires
        spec_parse_duplicate_shred(s, pos) is Some,
    ensures
        spec_parse_duplicate_shred(s + t, pos) == spec_parse_duplicate_shred(s, pos),
        spec_parse_duplicate_shred(s, pos).unwrap().2 <= s.len(),
{
    lemma_extend_reads(s, t);
}

} // verus!
