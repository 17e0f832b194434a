//! Little-endian byte readers and writers, stated over `Seq<u8>`.
use vstd::prelude::*;

verus! {

/// The value of two little-endian bytes.
pub open spec fn u16_from_le(b0: u8, b1: u8) -> u16 {
    (b0 as u16) | ((b1 as u16) << 8u16)
}

/// The value of four little-endian bytes.
pub open spec fn u32_from_le(b0: u8, b1: u8, b2: u8, b3: u8) -> u32 {
    (b0 as u32) | ((b1 as u32) << 8u32) | ((b2 as u32) << 16u32) | ((b3 as u32) << 24u32)
}

/// The value of eight little-endian bytes, given as a sequence.
pub open spec fn u64_from_le(b: Seq<u8>) -> u64 {
    (b[0] as u64) | ((b[1] as u64) << 8u64) | ((b[2] as u64) << 16u64) | ((b[3] as u64) << 24u64)
        | ((b[4] as u64) << 32u64) | ((b[5] as u64) << 40u64) | ((b[6] as u64) << 48u64) | ((b[7]
        as u64) << 56u64)
}

/// The little-endian encoding of a `u16`.
pub open spec fn le_bytes_u16(v: u16) -> Seq<u8> {
    seq![v as u8, (v >> 8u16) as u8]
}

/// The little-endian encoding of a `u32`.
pub open spec fn le_bytes_u32(v: u32) -> Seq<u8> {
    seq![v as u8, (v >> 8u32) as u8, (v >> 16u32) as u8, (v >> 24u32) as u8]
}

/// The little-endian encoding of a `u64`.
pub open spec fn le_bytes_u64(v: u64) -> Seq<u8> {
    seq![
        v as u8,
        (v >> 8u64) as u8,
        (v >> 16u64) as u8,
        (v >> 24u64) as u8,
        (v >> 32u64) as u8,
        (v >> 40u64) as u8,
        (v >> 48u64) as u8,
        (v >> 56u64) as u8,
    ]
}

/// Reading back the encoding of a `u16` gives the value.
pub proof fn lemma_u16_roundtrip(v: u16)
    ensures
        le_bytes_u16(v).len() == 2,
        u16_from_le(le_bytes_u16(v)[0], le_bytes_u16(v)[1]) == v,
{
    let b0 = v as u8;
    let b1 = (v >> 8u16) as u8;
    assert((b0 as u16) | ((b1 as u16) << 8u16) == v) by (bit_vector)
        requires
            b0 == v as u8,
            b1 == (v >> 8u16) as u8,
    ;
}

/// Reading back the encoding of a `u32` gives the value.
pub proof fn lemma_u32_roundtrip(v: u32)
    ensures
        le_bytes_u32(v).len() == 4,
        u32_from_le(le_bytes_u32(v)[0], le_bytes_u32(v)[1], le_bytes_u32(v)[2], le_bytes_u32(v)[3])
            == v,
{
    let b0 = v as u8;
    let b1 = (v >> 8u32) as u8;
    let b2 = (v >> 16u32) as u8;
    let b3 = (v >> 24u32) as u8;
    assert((b0 as u32) | ((b1 as u32) << 8u32) | ((b2 as u32) << 16u32) | ((b3 as u32) << 24u32)
        == v) by (bit_vector)
        requires
            b0 == v as u8,
            b1 == (v >> 8u32) as u8,
            b2 == (v >> 16u32) as u8,
            b3 == (v >> 24u32) as u8,
    ;
}

/// Reading back the encoding of a `u64` gives the value.
pub proof fn lemma_u64_roundtrip(v: u64)
    ensures
        le_bytes_u64(v).len() == 8,
        u64_from_le(le_bytes_u64(v)) == v,
{
    let b = le_bytes_u64(v);
    let b0 = b[0];
    let b1 = b[1];
    let b2 = b[2];
    let b3 = b[3];
    let b4 = b[4];
    let b5 = b[5];
    let b6 = b[6];
    let b7 = b[7];
    assert((b0 as u64) | ((b1 as u64) << 8u64) | ((b2 as u64) << 16u64) | ((b3 as u64) << 24u64)
        | ((b4 as u64) << 32u64) | ((b5 as u64) << 40u64) | ((b6 as u64) << 48u64) | ((b7 as u64)
        << 56u64) == v) by (bit_vector)
        requires
            b0 == v as u8,
            b1 == (v >> 8u64) as u8,
            b2 == (v >> 16u64) as u8,
            b3 == (v >> 24u64) as u8,
            b4 == (v >> 32u64) as u8,
            b5 == (v >> 40u64) as u8,
            b6 == (v >> 48u64) as u8,
            b7 == (v >> 56u64) as u8,
    ;
}

/// A reader's result with its position taken as an integer and its value by its view.
pub open spec fn lift<T: View>(r: Option<(T, usize)>) -> Option<(T::V, int)> {
    match r {
        Some((v, p)) => Some((v@, p as int)),
        None => None,
    }
}

/// The little-endian `u16` stored at `i`.
pub open spec fn u16_le_at(s: Seq<u8>, i: int) -> u16 {
    u16_from_le(s[i], s[i + 1])
}

/// The little-endian `u32` stored at `i`.
pub open spec fn u32_le_at(s: Seq<u8>, i: int) -> u32 {
    u32_from_le(s[i], s[i + 1], s[i + 2], s[i + 3])
}

/// The little-endian `u64` stored at `i`.
pub open spec fn u64_le_at(s: Seq<u8>, i: int) -> u64 {
    u64_from_le(s.subrange(i, i + 8))
}

/// A little-endian `u32` at `pos`.
pub open spec fn spec_u32_at(s: Seq<u8>, pos: int) -> Option<(u32, int)> {
    if 0 <= pos && pos + 4 <= s.len() {
        Some((u32_le_at(s, pos), pos + 4))
    } else {
        None
    }
}

pub fn get_u16_le(s: &[u8], i: usize) -> (v: u16)
    requires
        i + 2 <= s@.len(),
    ensures
        v == u16_le_at(s@, i as int),
{
    (s[i] as u16) | ((s[i + 1] as u16) << 8u16)
}

pub fn get_u32_le(s: &[u8], i: usize) -> (v: u32)
    requires
        i + 4 <= s@.len(),
    ensures
        v == u32_le_at(s@, i as int),
{
    (s[i] as u32) | ((s[i + 1] as u32) << 8u32) | ((s[i + 2] as u32) << 16u32) | ((s[i + 3]
        as u32) << 24u32)
}

pub fn get_u64_le(s: &[u8], i: usize) -> (v: u64)
    requires
        i + 8 <= s@.len(),
    ensures
        v == u64_le_at(s@, i as int),
{
    let v: u64 = (s[i] as u64) | ((s[i + 1] as u64) << 8u64) | ((s[i + 2] as u64) << 16u64) | ((
    s[i + 3] as u64) << 24u64) | ((s[i + 4] as u64) << 32u64) | ((s[i + 5] as u64) << 40u64) | ((
    s[i + 6] as u64) << 48u64) | ((s[i + 7] as u64) << 56u64);
    proof {
        let b = s@.subrange(i as int, i + 8);
        assert(b[0] == s@[i as int] && b[1] == s@[i + 1] && b[2] == s@[i + 2] && b[3] == s@[i + 3]
            && b[4] == s@[i + 4] && b[5] == s@[i + 5] && b[6] == s@[i + 6] && b[7] == s@[i + 7]);
    }
    v
}

/// Copies the `n` bytes that start at `i`.
pub fn get_bytes(s: &[u8], i: usize, n: usize) -> (out: Vec<u8>)
    requires
        i + n <= s@.len(),
    ensures
        out@ == s@.subrange(i as int, i + n),
{
    let mut out: Vec<u8> = Vec::with_capacity(n);
    let mut k: usize = 0;
    while k < n
        invariant
            k <= n,
            i + n <= s.len(),
            out@ == s@.subrange(i as int, i + k),
        decreases n - k,
    {
        out.push(s[i + k]);
        k = k + 1;
        assert(out@ =~= s@.subrange(i as int, i + k));
    }
    out
}

/// A little-endian `u32` at `pos`, and the position after it.
pub fn read_u32_le(s: &[u8], pos: usize) -> (r: Option<(u32, usize)>)
    ensures
        lift(r) == spec_u32_at(s@, pos as int),
{
    if pos <= s.len() && s.len() - pos >= 4 {
        Some((get_u32_le(s, pos), pos + 4))
    } else {
        None
    }
}

/// Appends the little-endian encoding of `v`.
pub fn push_u32_le(buf: &mut Vec<u8>, v: u32)
    ensures
        final(buf)@ == old(buf)@ + le_bytes_u32(v),
{
    buf.push(v as u8);
    buf.push((v >> 8u32) as u8);
    buf.push((v >> 16u32) as u8);
    buf.push((v >> 24u32) as u8);
    assert(buf@ =~= old(buf)@ + le_bytes_u32(v));
}

/// Appends the little-endian encoding of `v`.
pub fn push_u64_le(buf: &mut Vec<u8>, v: u64)
    ensures
        final(buf)@ == old(buf)@ + le_bytes_u64(v),
{
    buf.push(v as u8);
    buf.push((v >> 8u64) as u8);
    buf.push((v >> 16u64) as u8);
    buf.push((v >> 24u64) as u8);
    buf.push((v >> 32u64) as u8);
    buf.push((v >> 40u64) as u8);
    buf.push((v >> 48u64) as u8);
    buf.push((v >> 56u64) as u8);
    assert(buf@ =~= old(buf)@ + le_bytes_u64(v));
}

/// Appends the bytes of `src`.
pub fn push_bytes(buf: &mut Vec<u8>, src: &[u8])
    ensures
        final(buf)@ == old(buf)@ + src@,
{
    let mut i: usize = 0;
    while i < src.len()
        invariant
            i <= src@.len(),
            buf@ == old(buf)@ + src@.subrange(0, i as int),
        decreases src@.len() - i,
    {
        buf.push(src[i]);
        i = i + 1;
        assert(buf@ =~= old(buf)@ + src@.subrange(0, i as int));
    }
    assert(src@.subrange(0, src@.len() as int) =~= src@);
}

/// Bytes inside `s` read the same in `s + t`.
pub proof fn lemma_extend_reads(s: Seq<u8>, t: Seq<u8>)
    ensures
        forall|i: int, j: int|
            0 <= i <= j <= s.len() ==> #[trigger] (s + t).subrange(i, j) == s.subrange(i, j),
        forall|i: int| 0 <= i && i + 8 <= s.len() ==> #[trigger] u64_le_at(s + t, i) == u64_le_at(s, i),
        forall|i: int| 0 <= i && i + 4 <= s.len() ==> #[trigger] u32_le_at(s + t, i) == u32_le_at(s, i),
        forall|i: int| 0 <= i && i + 2 <= s.len() ==> #[trigger] u16_le_at(s + t, i) == u16_le_at(s, i),
        forall|i: int| 0 <= i < s.len() ==> #[trigger] (s + t)[i] == s[i],
{
    assert forall|i: int, j: int| 0 <= i <= j <= s.len() implies #[trigger] (s + t).subrange(i, j)
        == s.subrange(i, j) by {
        assert((s + t).subrange(i, j) =~= s.subrange(i, j));
    }
    assert forall|i: int| 0 <= i && i + 8 <= s.len() implies #[trigger] u64_le_at(s + t, i)
        == u64_le_at(s, i) by {
        assert((s + t).subrange(i, i + 8) =~= s.subrange(i, i + 8));
    }
}

} // verus!
