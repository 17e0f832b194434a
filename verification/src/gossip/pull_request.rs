//! The filter of a pull request: a Bloom filter over the hashes of the values
//! that the requester holds, restricted to the hashes under a mask.
use vstd::prelude::*;
use crate::wire::{
    get_u32_le, get_u64_le, le_bytes_u64, lemma_extend_reads, push_u64_le, u32_le_at, u64_le_at,
};

verus! {

/// Model of a Bloom filter: its hash keys, the blocks of its bit vector, the
/// number of bits in use, and the count of bits set.
pub struct SpecBloom {
    pub keys: Seq<u64>,
    pub blocks: Seq<u64>,
    pub len: u64,
    pub num_bits_set: u64,
}

/// Model of a pull-request filter.
pub struct SpecCrdsFilter {
    pub filter: SpecBloom,
    pub mask: u64,
    pub mask_bits: u32,
}

#[derive(Debug)]
pub struct Bloom {
    pub keys: Vec<u64>,
    pub blocks: Vec<u64>,
    pub len: u64,
    pub num_bits_set: u64,
}

#[derive(Debug)]
pub struct CrdsFilter {
    pub filter: Bloom,
    pub mask: u64,
    pub mask_bits: u32,
}

impl View for Bloom {
    type V = SpecBloom;

    open spec fn view(&self) -> SpecBloom {
        SpecBloom {
            keys: self.keys@,
            blocks: self.blocks@,
            len: self.len,
            num_bits_set: self.num_bits_set,
        }
    }
}

impl View for CrdsFilter {
    type V = SpecCrdsFilter;

    open spec fn view(&self) -> SpecCrdsFilter {
        SpecCrdsFilter { filter: self.filter@, mask: self.mask, mask_bits: self.mask_bits }
    }
}

/// `n` consecutive little-endian `u64` words starting at `start`.
pub open spec fn spec_words(s: Seq<u8>, start: int, n: nat) -> Seq<u64> {
    Seq::new(n, |i: int| u64_le_at(s, start + 8 * i))
}

/// A counted list of `u64` words at `pos`.
pub open spec fn spec_parse_words(s: Seq<u8>, pos: int) -> Option<(Seq<u64>, int)> {
    if 0 <= pos && pos + 8 <= s.len() {
        let n = u64_le_at(s, pos);
        if pos + 8 + 8 * n <= s.len() {
            Some((spec_words(s, pos + 8, n as nat), pos + 8 + 8 * n))
        } else {
            None
        }
    } else {
        None
    }
}

/// The block storage of a bit vector: a byte 0 for none, or a byte 1 and a
/// non-empty counted list of words.
pub open spec fn spec_parse_blocks(s: Seq<u8>, pos: int) -> Option<(Seq<u64>, int)> {
    if 0 <= pos && pos < s.len() {
        if s[pos] == 0 {
            Some((seq![], pos + 1))
        } else if s[pos] == 1 {
            match spec_parse_words(s, pos + 1) {
                Some((w, p)) => if w.len() > 0 {
                    Some((w, p))
                } else {
                    None
                },
                None => None,
            }
        } else {
            None
        }
    } else {
        None
    }
}

/// A Bloom filter: keys, bit vector (blocks, then a length that the blocks
/// can hold), then the count of set bits.
pub open spec fn spec_parse_bloom(s: Seq<u8>, pos: int) -> Option<(SpecBloom, int)> {
    match spec_parse_words(s, pos) {
        Some((keys, p1)) => match spec_parse_blocks(s, p1) {
            Some((blocks, p2)) => if p2 + 16 <= s.len() && u64_le_at(s, p2) <= 64 * blocks.len() {
                Some(
                    (
                        SpecBloom {
                            keys,
                            blocks,
                            len: u64_le_at(s, p2),
                            num_bits_set: u64_le_at(s, p2 + 8),
                        },
                        p2 + 16,
                    ),
                )
            } else {
                None
            },
            None => None,
        },
        None => None,
    }
}

/// A pull-request filter: Bloom filter, mask, mask width.
#[verifier::opaque]
pub open spec fn spec_parse_crds_filter(s: Seq<u8>, pos: int) -> Option<(SpecCrdsFilter, int)> {
    match spec_parse_bloom(s, pos) {
        Some((filter, p)) => if p + 12 <= s.len() {
            Some(
                (
                    SpecCrdsFilter { filter, mask: u64_le_at(s, p), mask_bits: u32_le_at(s, p + 8) },
                    p + 12,
                ),
            )
        } else {
            None
        },
        None => None,
    }
}

/// Number of blocks that hold `len` bits.
pub open spec fn spec_block_count(len: u64) -> nat {
    ((len + 63) / 64) as nat
}

/// Block `i` with the bits past `len` cleared.
pub open spec fn spec_masked_block(b: u64, len: u64, i: int) -> u64 {
    if len - 64 * i >= 64 {
        b
    } else {
        b & (((1u64 << ((len - 64 * i) as u64)) - 1) as u64)
    }
}

/// The bytes of the first `n` blocks, each with the bits past `len` cleared,
/// little-endian, one after another.
pub open spec fn spec_blocks_bytes(blocks: Seq<u64>, len: u64, n: nat) -> Seq<u8>
    decreases n,
{
    if n == 0 {
        seq![]
    } else {
        spec_blocks_bytes(blocks, len, (n - 1) as nat) + le_bytes_u64(
            spec_masked_block(blocks[n - 1], len, n - 1),
        )
    }
}

/// The bytes of a Bloom filter's bit vector: every block that holds one of
/// its bits.
pub open spec fn spec_bloom_bits(b: SpecBloom) -> Seq<u8> {
    spec_blocks_bytes(b.blocks, b.len, spec_block_count(b.len))
}

/// Reads `n` words; the caller has checked that they fit.
fn get_words(s: &[u8], start: usize, n: usize) -> (out: Vec<u64>)
    requires
        start + 8 * n <= s@.len(),
    ensures
        out@ == spec_words(s@, start as int, n as nat),
{
    let mut out: Vec<u64> = Vec::new();
    let mut i: usize = 0;
    while i < n
        invariant
            i <= n,
            start + 8 * n <= s.len(),
            out@ == spec_words(s@, start as int, i as nat),
        decreases n - i,
    {
        let w = get_u64_le(s, start + 8 * i);
        out.push(w);
        i = i + 1;
        assert(out@ =~= spec_words(s@, start as int, i as nat));
    }
    out
}

fn parse_words(s: &[u8], pos: usize) -> (r: Option<(Vec<u64>, usize)>)
    ensures
        match (r, spec_parse_words(s@, pos as int)) {
            (Some((w, p)), Some((sw, sp))) => w@ == sw && p == sp,
            (None, None) => true,
            _ => false,
        },
{
    if pos > s.len() || s.len() - pos < 8 {
        return None;
    }
    let n = get_u64_le(s, pos);
    let avail = (s.len() - pos - 8) / 8;
    if n > avail as u64 {
        proof {
            assert(pos + 8 + 8 * n > s@.len()) by (nonlinear_arith)
                requires
                    n > avail,
                    avail == (s@.len() - pos - 8) / 8,
                    s@.len() - pos - 8 >= 0,
            ;
        }
        return None;
    }
    let n = n as usize;
    proof {
        assert(pos + 8 + 8 * n <= s@.len()) by (nonlinear_arith)
            requires
                n <= avail,
                avail == (s@.len() - pos - 8) / 8,
                s@.len() - pos - 8 >= 0,
        ;
    }
    let w = get_words(s, pos + 8, n);
    Some((w, pos + 8 + 8 * n))
}

fn parse_blocks(s: &[u8], pos: usize) -> (r: Option<(Vec<u64>, usize)>)
    ensures
        match (r, spec_parse_blocks(s@, pos as int)) {
            (Some((w, p)), Some((sw, sp))) => w@ == sw && p == sp,
            (None, None) => true,
            _ => false,
        },
{
    if pos >= s.len() {
        return None;
    }
    if s[pos] == 0 {
        let empty: Vec<u64> = Vec::new();
        assert(empty@ =~= seq![]);
        Some((empty, pos + 1))
    } else if s[pos] == 1 {
        match parse_words(s, pos + 1) {
            Some((w, p)) => if w.len() > 0 {
                Some((w, p))
            } else {
                None
            },
            None => None,
        }
    } else {
        None
    }
}

pub fn parse_bloom(s: &[u8], pos: usize) -> (r: Option<(Bloom, usize)>)
    ensures
        crate::wire::lift(r) == spec_parse_bloom(s@, pos as int),
{
    let (keys, p1) = match parse_words(s, pos) {
        Some(x) => x,
        None => return None,
    };
    let (blocks, p2) = match parse_blocks(s, p1) {
        Some(x) => x,
        None => return None,
    };
    if p2 > s.len() || s.len() - p2 < 16 {
        return None;
    }
    let len = get_u64_le(s, p2);
    if len / 64 > blocks.len() as u64 || (len / 64 == blocks.len() as u64 && len % 64 != 0) {
        return None;
    }
    let num_bits_set = get_u64_le(s, p2 + 8);
    Some((Bloom { keys, blocks, len, num_bits_set }, p2 + 16))
}

pub fn parse_crds_filter(s: &[u8], pos: usize) -> (r: Option<(CrdsFilter, usize)>)
    ensures
        crate::wire::lift(r) == spec_parse_crds_filter(s@, pos as int),
{
    reveal(spec_parse_crds_filter);
    match parse_bloom(s, pos) {
        Some((filter, p)) => {
            if s.len() - p < 12 {
                return None;
            }
            let mask = get_u64_le(s, p);
            let mask_bits = get_u32_le(s, p + 8);
            Some((CrdsFilter { filter, mask, mask_bits }, p + 12))
        },
        None => None,
    }
}

/// The bytes of a Bloom filter's bit vector, as the effects record carries them.
pub fn bloom_bits(b: &Bloom) -> (out: Vec<u8>)
    requires
        b.len <= 64 * b.blocks@.len(),
    ensures
        out@ == spec_bloom_bits(b@),
{
    let n: u64 = b.len / 64 + if b.len % 64 == 0 {
        0
    } else {
        1
    };
    assert(n == spec_block_count(b.len));
    let nb: usize = b.blocks.len();
    assert(n <= nb) by (nonlinear_arith)
        requires
            n == (b.len + 63) / 64,
            b.len <= 64 * nb,
    ;
    let n: usize = n as usize;
    let mut out: Vec<u8> = Vec::new();
    let mut i: usize = 0;
    while i < n
        invariant
            i <= n,
            n == spec_block_count(b.len),
            n <= b.blocks@.len(),
            out@ == spec_blocks_bytes(b.blocks@, b.len, i as nat),
        decreases n - i,
    {
        assert(64 * i < b.len) by (nonlinear_arith)
            requires
                i < n,
                n == (b.len + 63) / 64,
        ;
        let block = b.blocks[i];
        let k: u64 = b.len - 64 * (i as u64);
        let masked = if k >= 64 {
            block
        } else {
            assert(1u64 << k >= 1) by (bit_vector)
                requires
                    k < 64,
            ;
            block & ((1u64 << k) - 1)
        };
        assert(masked == spec_masked_block(b.blocks@[i as int], b.len, i as int));
        let ghost prev = out@;
        push_u64_le(&mut out, masked);
        i = i + 1;
        assert(out@ == prev + le_bytes_u64(masked));
    }
    out
}

/// A filter read from `s` reads the same from any extension of `s`, and ends
/// within `s`.
pub proof fn lemma_extend_crds_filter(s: Seq<u8>, t: Seq<u8>, pos: int)
    requires
        spec_parse_crds_filter(s, pos) is Some,
    ensures
        spec_parse_crds_filter(s + t, pos) == spec_parse_crds_filter(s, pos),
        spec_parse_crds_filter(s, pos).unwrap().1 <= s.len(),
{
    reveal(spec_parse_crds_filter);
    lemma_extend_reads(s, t);
    lemma_extend_words(s, t, pos);
    let p1 = spec_parse_words(s, pos).unwrap().1;
    if s[p1] == 1 {
        lemma_extend_words(s, t, p1 + 1);
    }
}

proof fn lemma_extend_words(s: Seq<u8>, t: Seq<u8>, pos: int)
    requires
        spec_parse_words(s, pos) is Some,
    ensures
        spec_parse_words(s + t, pos) == spec_parse_words(s, pos),
        spec_parse_words(s, pos).unwrap().1 <= s.len(),
{
    lemma_extend_reads(s, t);
    let n = u64_le_at(s, pos);
    assert forall|i: int| 0 <= i < n implies #[trigger] spec_words(s + t, pos + 8, n as nat)[i]
        == spec_words(s, pos + 8, n as nat)[i] by {
        assert(pos + 8 + 8 * i + 8 <= pos + 8 + 8 * n) by (nonlinear_arith)
            requires
                0 <= i < n,
        ;
    }
    assert(spec_words(s + t, pos + 8, n as nat) =~= spec_words(s, pos + 8, n as nat));
}

} // verus!
