//! The slots a node has completed, as runs of slots each kept either as a
//! compressed blob or as a bit vector.
use vstd::prelude::*;
use crate::wire::{get_bytes, get_u64_le, lemma_extend_reads, read_u32_le, spec_u32_at, u64_le_at};
use crate::gossip::MAX_WALLCLOCK;

verus! {

/// Runs of slots may not claim this many slots or more.
pub const MAX_SLOTS_PER_ENTRY: u64 = 16384;

/// Index values of epoch-slots records stay below this bound.
pub const MAX_EPOCH_SLOTS: u8 = 255;

/// Model of a run of slots.
pub enum SpecCompressedSlots {
    /// First slot, slot count, compressed bytes.
    Flate2 { first_slot: u64, num: u64, compressed: Seq<u8> },
    /// First slot, slot count, the bytes of the bit vector and its length in bits.
    Uncompressed { first_slot: u64, num: u64, bytes: Seq<u8>, len: u64 },
}

/// Model of an epoch-slots record.
pub struct SpecEpochSlots {
    pub from: Seq<u8>,
    pub slots: Seq<SpecCompressedSlots>,
    pub wallclock: u64,
}

#[derive(Debug)]
pub enum CompressedSlots {
    Flate2 { first_slot: u64, num: u64, compressed: Vec<u8> },
    Uncompressed { first_slot: u64, num: u64, bytes: Vec<u8>, len: u64 },
}

#[derive(Debug)]
pub struct EpochSlots {
    pub from: Vec<u8>,
    pub slots: Vec<CompressedSlots>,
    pub wallclock: u64,
}

impl View for CompressedSlots {
    type V = SpecCompressedSlots;

    open spec fn view(&self) -> SpecCompressedSlots {
        match self {
            CompressedSlots::Flate2 { first_slot, num, compressed } => SpecCompressedSlots::Flate2 {
                first_slot: *first_slot,
                num: *num,
                compressed: compressed@,
            },
            CompressedSlots::Uncompressed { first_slot, num, bytes, len } =>
                SpecCompressedSlots::Uncompressed {
                first_slot: *first_slot,
                num: *num,
                bytes: bytes@,
                len: *len,
            },
        }
    }
}

/// The model of a list of runs.
pub open spec fn compressed_slots_view(v: Seq<CompressedSlots>) -> Seq<SpecCompressedSlots> {
    v.map_values(|c: CompressedSlots| c@)
}

impl View for EpochSlots {
    type V = SpecEpochSlots;

    open spec fn view(&self) -> SpecEpochSlots {
        SpecEpochSlots {
            from: self.from@,
            slots: compressed_slots_view(self.slots@),
            wallclock: self.wallclock,
        }
    }
}

/// A counted byte string at `pos`.
pub open spec fn spec_parse_counted_bytes(s: Seq<u8>, pos: int) -> Option<(Seq<u8>, int)> {
    if 0 <= pos && pos + 8 <= s.len() && pos + 8 + u64_le_at(s, pos) <= s.len() {
        Some((s.subrange(pos + 8, pos + 8 + u64_le_at(s, pos)), pos + 8 + u64_le_at(s, pos)))
    } else {
        None
    }
}

/// A run of slots: variant 0 for a compressed blob, 1 for a bit vector whose
/// storage is a byte 0 (none) or a byte 1 and non-empty counted bytes, then its
/// length in bits, which the storage must hold.
pub open spec fn spec_parse_compressed_slots(s: Seq<u8>, pos: int) -> Option<
    (SpecCompressedSlots, int),
> {
    match spec_u32_at(s, pos) {
        Some((tag, p)) => if p + 16 <= s.len() {
            let first_slot = u64_le_at(s, p);
            let num = u64_le_at(s, p + 8);
            let q = p + 16;
            if tag == 0 {
                match spec_parse_counted_bytes(s, q) {
                    Some((compressed, r)) => Some(
                        (SpecCompressedSlots::Flate2 { first_slot, num, compressed }, r),
                    ),
                    None => None,
                }
            } else if tag == 1 && q < s.len() {
                let storage: Option<(Seq<u8>, int)> = if s[q] == 0 {
                    Some((seq![], q + 1))
                } else if s[q] == 1 {
                    match spec_parse_counted_bytes(s, q + 1) {
                        Some((b, r)) => if b.len() > 0 {
                            Some((b, r))
                        } else {
                            None
                        },
                        None => None,
                    }
                } else {
                    None
                };
                match storage {
                    Some((bytes, r)) => if r + 8 <= s.len() && u64_le_at(s, r) <= 8 * bytes.len() {
                        Some(
                            (
                                SpecCompressedSlots::Uncompressed {
                                    first_slot,
                                    num,
                                    bytes,
                                    len: u64_le_at(s, r),
                                },
                                r + 8,
                            ),
                        )
                    } else {
                        None
                    },
                    None => None,
                }
            } else {
                None
            }
        } else {
            None
        },
        None => None,
    }
}

/// `n` consecutive runs starting at `pos`.
pub open spec fn spec_parse_compressed_slots_list(s: Seq<u8>, pos: int, n: nat) -> Option<
    (Seq<SpecCompressedSlots>, int),
>
    decreases n,
{
    if n == 0 {
        Some((seq![], pos))
    } else {
        match spec_parse_compressed_slots_list(s, pos, (n - 1) as nat) {
            Some((v, p)) => match spec_parse_compressed_slots(s, p) {
                Some((c, q)) => Some((v.push(c), q)),
                None => None,
            },
            None => None,
        }
    }
}

/// An epoch-slots entry: index byte, key, counted runs, wallclock.
pub open spec fn spec_parse_epoch_slots(s: Seq<u8>, pos: int) -> Option<(u8, SpecEpochSlots, int)> {
    if 0 <= pos && pos + 41 <= s.len() {
        match spec_parse_compressed_slots_list(s, pos + 41, u64_le_at(s, pos + 33) as nat) {
            Some((slots, p)) => if p + 8 <= s.len() {
                Some(
                    (
                        s[pos],
                        SpecEpochSlots {
                            from: s.subrange(pos + 1, pos + 33),
                            slots,
                            wallclock: u64_le_at(s, p),
                        },
                        p + 8,
                    ),
                )
            } else {
                None
            },
            None => None,
        }
    } else {
        None
    }
}

/// Whether a run is within bounds: fewer slots than the per-entry bound and,
/// for a bit vector, a length in whole bytes that fills its storage.
pub open spec fn spec_sanitize_compressed_slots(c: SpecCompressedSlots) -> bool {
    match c {
        SpecCompressedSlots::Flate2 { num, .. } => num < MAX_SLOTS_PER_ENTRY,
        SpecCompressedSlots::Uncompressed { num, bytes, len, .. } => {
            &&& num < MAX_SLOTS_PER_ENTRY
            &&& len % 8 == 0
            &&& len == 8 * bytes.len()
        },
    }
}

/// Whether an epoch-slots entry is within bounds.
pub open spec fn spec_sanitize_epoch_slots(ix: u8, e: SpecEpochSlots) -> bool {
    &&& ix < MAX_EPOCH_SLOTS
    &&& e.wallclock < MAX_WALLCLOCK
    &&& forall|i: int| 0 <= i < e.slots.len() ==> spec_sanitize_compressed_slots(#[trigger] e.slots[i])
}

fn parse_counted_bytes(s: &[u8], pos: usize) -> (r: Option<(Vec<u8>, usize)>)
    ensures
        crate::wire::lift(r) == spec_parse_counted_bytes(s@, pos as int),
{
    if pos > s.len() || s.len() - pos < 8 {
        return None;
    }
    let n = get_u64_le(s, pos);
    if n > (s.len() - pos - 8) as u64 {
        return None;
    }
    let n = n as usize;
    Some((get_bytes(s, pos + 8, n), pos + 8 + n))
}

pub fn parse_compressed_slots(s: &[u8], pos: usize) -> (r: Option<(CompressedSlots, usize)>)
    ensures
        crate::wire::lift(r) == spec_parse_compressed_slots(s@, pos as int),
{
    let (tag, p) = match read_u32_le(s, pos) {
        Some(x) => x,
        None => return None,
    };
    if s.len() - p < 16 {
        return None;
    }
    let first_slot = get_u64_le(s, p);
    let num = get_u64_le(s, p + 8);
    let q = p + 16;
    if tag == 0 {
        match parse_counted_bytes(s, q) {
            Some((compressed, r)) => Some((CompressedSlots::Flate2 { first_slot, num, compressed }, r)),
            None => None,
        }
    } else if tag == 1 && q < s.len() {
        let (bytes, r) = if s[q] == 0 {
            let empty: Vec<u8> = Vec::new();
            assert(empty@ =~= seq![]);
            (empty, q + 1)
        } else if s[q] == 1 {
            match parse_counted_bytes(s, q + 1) {
                Some((b, r)) => {
                    if b.len() == 0 {
                        return None;
                    }
                    (b, r)
                },
                None => return None,
            }
        } else {
            return None;
        };
        if s.len() - r < 8 {
            return None;
        }
        let len = get_u64_le(s, r);
        if len / 8 > bytes.len() as u64 || (len / 8 == bytes.len() as u64 && len % 8 != 0) {
            return None;
        }
        Some((CompressedSlots::Uncompressed { first_slot, num, bytes, len }, r + 8))
    } else {
        None
    }
}

/// Once reading the first `i` runs fails, reading more of them fails too.
proof fn lemma_compressed_slots_fail_monotone(s: Seq<u8>, pos: int, i: nat, n: nat)
    requires
        i <= n,
        spec_parse_compressed_slots_list(s, pos, i) is None,
    ensures
        spec_parse_compressed_slots_list(s, pos, n) is None,
    decreases n,
{
    if n > i {
        lemma_compressed_slots_fail_monotone(s, pos, i, (n - 1) as nat);
    }
}

fn parse_compressed_slots_list(s: &[u8], pos: usize, n: u64) -> (r: Option<
    (Vec<CompressedSlots>, usize),
>)
    ensures
        match (r, spec_parse_compressed_slots_list(s@, pos as int, n as nat)) {
            (Some((v, p)), Some((sv, sp))) => compressed_slots_view(v@) == sv && p == sp,
            (None, None) => true,
            _ => false,
        },
{
    let mut out: Vec<CompressedSlots> = Vec::new();
    let mut p: usize = pos;
    let mut i: u64 = 0;
    while i < n
        invariant
            i <= n,
            spec_parse_compressed_slots_list(s@, pos as int, i as nat) == Some(
                (compressed_slots_view(out@), p as int),
            ),
        decreases n - i,
    {
        match parse_compressed_slots(s, p) {
            Some((c, q)) => {
                let ghost prev = out@;
                let ghost cv = c@;
                out.push(c);
                p = q;
                i = i + 1;
                assert(compressed_slots_view(out@) =~= compressed_slots_view(prev).push(cv));
            },
            None => {
                proof {
                    lemma_compressed_slots_fail_monotone(s@, pos as int, (i + 1) as nat, n as nat);
                }
                return None;
            },
        }
    }
    Some((out, p))
}

pub fn parse_epoch_slots(s: &[u8], pos: usize) -> (r: Option<(u8, EpochSlots, usize)>)
    ensures
        match (r, spec_parse_epoch_slots(s@, pos as int)) {
            (Some((ix, e, p)), Some((six, se, sp))) => ix == six && e@ == se && p == sp,
            (None, None) => true,
            _ => false,
        },
{
    if pos > s.len() || s.len() - pos < 41 {
        return None;
    }
    let n = get_u64_le(s, pos + 33);
    match parse_compressed_slots_list(s, pos + 41, n) {
        Some((slots, p)) => {
            if p > s.len() || s.len() - p < 8 {
                return None;
            }
            let from = get_bytes(s, pos + 1, 32);
            let wallclock = get_u64_le(s, p);
            Some((s[pos], EpochSlots { from, slots, wallclock }, p + 8))
        },
        None => None,
    }
}

pub fn sanitize_epoch_slots(ix: u8, e: &EpochSlots) -> (r: bool)
    ensures
        r == spec_sanitize_epoch_slots(ix, e@),
{
    if ix >= MAX_EPOCH_SLOTS || e.wallclock >= MAX_WALLCLOCK {
        return false;
    }
    let mut i: usize = 0;
    while i < e.slots.len()
        invariant
            i <= e.slots@.len(),
            forall|j: int|
                0 <= j < i ==> spec_sanitize_compressed_slots(#[trigger] e.slots@[j]@),
        decreases e.slots@.len() - i,
    {
        let ok = match &e.slots[i] {
            CompressedSlots::Flate2 { num, .. } => *num < MAX_SLOTS_PER_ENTRY,
            CompressedSlots::Uncompressed { num, bytes, len, .. } => {
                let m: u64 = bytes.len() as u64;
                assert((*len % 8 == 0 && *len / 8 == m) <==> (*len == 8 * m)) by (nonlinear_arith)
                    requires
                        m == bytes@.len(),
                ;
                *num < MAX_SLOTS_PER_ENTRY && *len % 8 == 0 && *len / 8 == m
            },
        };
        if !ok {
            assert(!spec_sanitize_compressed_slots(e.slots@[i as int]@));
            assert(compressed_slots_view(e.slots@)[i as int] == e.slots@[i as int]@);
            assert(!spec_sanitize_compressed_slots(e@.slots[i as int]));
            return false;
        }
        i = i + 1;
    }
    assert forall|j: int| 0 <= j < e@.slots.len() implies spec_sanitize_compressed_slots(
        #[trigger] e@.slots[j],
    ) by {
        assert(compressed_slots_view(e.slots@)[j] == e.slots@[j]@);
    }
    true
}

proof fn lemma_extend_compressed_slots(s: Seq<u8>, t: Seq<u8>, pos: int)
    requires
        spec_parse_compressed_slots(s, pos) is Some,
    ensures
        spec_parse_compressed_slots(s + t, pos) == spec_parse_compressed_slots(s, pos),
        pos < spec_parse_compressed_slots(s, pos).unwrap().1 <= s.len(),
{
    lemma_extend_reads(s, t);
}

proof fn lemma_extend_compressed_slots_list(s: Seq<u8>, t: Seq<u8>, pos: int, n: nat)
    requires
        0 <= pos <= s.len(),
        spec_parse_compressed_slots_list(s, pos, n) is Some,
    ensures
        spec_parse_compressed_slots_list(s + t, pos, n) == spec_parse_compressed_slots_list(
            s,
            pos,
            n,
        ),
        pos <= spec_parse_compressed_slots_list(s, pos, n).unwrap().1 <= s.len(),
    decreases n,
{
    if n > 0 {
        lemma_extend_compressed_slots_list(s, t, pos, (n - 1) as nat);
        let p = spec_parse_compressed_slots_list(s, pos, (n - 1) as nat).unwrap().1;
        lemma_extend_compressed_slots(s, t, p);
    }
}

/// An epoch-slots entry read from `s` reads the same from any extension of
/// `s`, and ends within `s`.
pub proof fn lemma_extend_epoch_slots(s: Seq<u8>, t: Seq<u8>, pos: int)
    requires
        spec_parse_epoch_slots(s, pos) is Some,
    ensures
        spec_parse_epoch_slots(s + t, pos) == spec_parse_epoch_slots(s, pos),
        spec_parse_epoch_slots(s, pos).unwrap().2 <= s.len(),
{
    lemma_extend_reads(s, t);
    lemma_extend_compressed_slots_list(s, t, pos + 41, u64_le_at(s, pos + 33) as nat);
}

} // verus!
