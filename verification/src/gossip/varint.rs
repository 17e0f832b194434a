//! The variable-length integers of gossip records: seven bits per byte, low
//! bits first, with the high bit marking that more bytes follow.
use vstd::prelude::*;

verus! {

/// Reading a `u64` that started at an earlier byte: `acc` holds the bits read
/// so far and `shift` where the byte at `pos` goes. The last byte may not lose
/// bits to the shift, and a zero byte ends only a one-byte encoding of zero.
pub open spec fn spec_varint_u64_from(s: Seq<u8>, pos: int, shift: u32, acc: u64) -> Option<
    (u64, int),
>
    decreases 70 - shift,
{
    if shift >= 64 || pos < 0 || pos >= s.len() {
        None
    } else {
        let byte = s[pos];
        let out = acc | (((byte & 0x7F) as u64) << shift);
        if byte & 0x80 == 0 {
            if (out >> shift) as u8 != byte {
                None
            } else if byte == 0 && (shift != 0 || out != 0) {
                None
            } else {
                Some((out, pos + 1))
            }
        } else {
            spec_varint_u64_from(s, pos + 1, (shift + 7) as u32, out)
        }
    }
}

/// A variable-length `u64` at `pos`.
pub open spec fn spec_varint_u64(s: Seq<u8>, pos: int) -> Option<(u64, int)> {
    spec_varint_u64_from(s, pos, 0, 0)
}

/// As `spec_varint_u64_from`, for a `u16`.
pub open spec fn spec_varint_u16_from(s: Seq<u8>, pos: int, shift: u32, acc: u16) -> Option<
    (u16, int),
>
    decreases 22 - shift,
{
    if shift >= 16 || pos < 0 || pos >= s.len() {
        None
    } else {
        let byte = s[pos];
        let out = acc | (((byte & 0x7F) as u16) << shift);
        if byte & 0x80 == 0 {
            if (out >> shift) as u8 != byte {
                None
            } else if byte == 0 && (shift != 0 || out != 0) {
                None
            } else {
                Some((out, pos + 1))
            }
        } else {
            spec_varint_u16_from(s, pos + 1, (shift + 7) as u32, out)
        }
    }
}

/// A variable-length `u16` at `pos`.
pub open spec fn spec_varint_u16(s: Seq<u8>, pos: int) -> Option<(u16, int)> {
    spec_varint_u16_from(s, pos, 0, 0)
}

/// A compact length at `pos`: one to three bytes of seven bits each, low bits
/// first; a byte after the first may not be zero, the third must end the
/// encoding, and the value must fit in sixteen bits.
pub open spec fn spec_short_u16(s: Seq<u8>, pos: int) -> Option<(u16, int)> {
    if pos < 0 || pos >= s.len() {
        None
    } else if s[pos] < 128 {
        Some((s[pos] as u16, pos + 1))
    } else if pos + 1 >= s.len() || s[pos + 1] == 0 {
        None
    } else if s[pos + 1] < 128 {
        Some((((s[pos] - 128) + 128 * s[pos + 1]) as u16, pos + 2))
    } else if pos + 2 >= s.len() || s[pos + 2] == 0 || s[pos + 2] >= 128 {
        None
    } else if (s[pos] - 128) + 128 * (s[pos + 1] - 128) + 16384 * s[pos + 2] > 0xFFFF {
        None
    } else {
        Some(
            (((s[pos] - 128) + 128 * (s[pos + 1] - 128) + 16384 * s[pos + 2]) as u16, pos + 3),
        )
    }
}

pub fn read_varint_u64(s: &[u8], pos: usize) -> (r: Option<(u64, usize)>)
    ensures
        match r {
            Some((v, p)) => spec_varint_u64(s@, pos as int) == Some((v, p as int)),
            None => spec_varint_u64(s@, pos as int) is None,
        },
{
    let mut out: u64 = 0;
    let mut shift: u32 = 0;
    let mut p: usize = pos;
    while shift < 64
        invariant
            shift % 7 == 0,
            shift <= 70,
            p == pos + shift / 7,
            spec_varint_u64(s@, pos as int) == spec_varint_u64_from(s@, p as int, shift, out),
        decreases 70 - shift,
    {
        if p >= s.len() {
            return None;
        }
        let byte = s[p];
        out = out | (((byte & 0x7F) as u64) << shift);
        if byte & 0x80 == 0 {
            if (out >> shift) as u8 != byte {
                return None;
            }
            if byte == 0 && (shift != 0 || out != 0) {
                return None;
            }
            return Some((out, p + 1));
        }
        shift = shift + 7;
        p = p + 1;
    }
    None
}

pub fn read_varint_u16(s: &[u8], pos: usize) -> (r: Option<(u16, usize)>)
    ensures
        match r {
            Some((v, p)) => spec_varint_u16(s@, pos as int) == Some((v, p as int)),
            None => spec_varint_u16(s@, pos as int) is None,
        },
{
    let mut out: u16 = 0;
    let mut shift: u32 = 0;
    let mut p: usize = pos;
    while shift < 16
        invariant
            shift % 7 == 0,
            shift <= 21,
            p == pos + shift / 7,
            spec_varint_u16(s@, pos as int) == spec_varint_u16_from(s@, p as int, shift, out),
        decreases 22 - shift,
    {
        if p >= s.len() {
            return None;
        }
        let byte = s[p];
        out = out | (((byte & 0x7F) as u16) << shift);
        if byte & 0x80 == 0 {
            if (out >> shift) as u8 != byte {
                return None;
            }
            if byte == 0 && (shift != 0 || out != 0) {
                return None;
            }
            return Some((out, p + 1));
        }
        shift = shift + 7;
        p = p + 1;
    }
    None
}

pub fn read_short_u16(s: &[u8], pos: usize) -> (r: Option<(u16, usize)>)
    ensures
        match r {
            Some((v, p)) => spec_short_u16(s@, pos as int) == Some((v, p as int)),
            None => spec_short_u16(s@, pos as int) is None,
        },
{
    if pos >= s.len() {
        return None;
    }
    let b0 = s[pos];
    if b0 < 128 {
        return Some((b0 as u16, pos + 1));
    }
    if pos + 1 >= s.len() || s[pos + 1] == 0 {
        return None;
    }
    let b1 = s[pos + 1];
    if b1 < 128 {
        return Some((((b0 - 128) as u16) + 128 * (b1 as u16), pos + 2));
    }
    if pos + 2 >= s.len() || s[pos + 2] == 0 || s[pos + 2] >= 128 {
        return None;
    }
    let b2 = s[pos + 2];
    let v: u32 = ((b0 - 128) as u32) + 128 * ((b1 - 128) as u32) + 16384 * (b2 as u32);
    if v > 0xFFFF {
        return None;
    }
    Some((v as u16, pos + 3))
}

/// A `u64` read from `s` reads the same from any extension of `s`, and ends within `s`.
pub proof fn lemma_extend_varint_u64_from(s: Seq<u8>, t: Seq<u8>, pos: int, shift: u32, acc: u64)
    requires
        spec_varint_u64_from(s, pos, shift, acc) is Some,
    ensures
        spec_varint_u64_from(s + t, pos, shift, acc) == spec_varint_u64_from(s, pos, shift, acc),
        pos < spec_varint_u64_from(s, pos, shift, acc).unwrap().1 <= s.len(),
    decreases 70 - shift,
{
    assert((s + t)[pos] == s[pos]);
    let byte = s[pos];
    if byte & 0x80 != 0 {
        let out = acc | (((byte & 0x7F) as u64) << shift);
        lemma_extend_varint_u64_from(s, t, pos + 1, (shift + 7) as u32, out);
    }
}

/// A `u16` read from `s` reads the same from any extension of `s`, and ends within `s`.
pub proof fn lemma_extend_varint_u16_from(s: Seq<u8>, t: Seq<u8>, pos: int, shift: u32, acc: u16)
    requires
        spec_varint_u16_from(s, pos, shift, acc) is Some,
    ensures
        spec_varint_u16_from(s + t, pos, shift, acc) == spec_varint_u16_from(s, pos, shift, acc),
        pos < spec_varint_u16_from(s, pos, shift, acc).unwrap().1 <= s.len(),
    decreases 22 - shift,
{
    assert((s + t)[pos] == s[pos]);
    let byte = s[pos];
    if byte & 0x80 != 0 {
        let out = acc | (((byte & 0x7F) as u16) << shift);
        lemma_extend_varint_u16_from(s, t, pos + 1, (shift + 7) as u32, out);
    }
}

/// A compact length read from `s` reads the same from any extension of `s`,
/// and ends within `s`.
pub proof fn lemma_extend_short_u16(s: Seq<u8>, t: Seq<u8>, pos: int)
    requires
        spec_short_u16(s, pos) is Some,
    ensures
        spec_short_u16(s + t, pos) == spec_short_u16(s, pos),
        pos < spec_short_u16(s, pos).unwrap().1 <= s.len(),
{
    assert((s + t)[pos] == s[pos]);
    if s[pos] >= 128 {
        assert((s + t)[pos + 1] == s[pos + 1]);
        if s[pos + 1] >= 128 {
            assert((s + t)[pos + 2] == s[pos + 2]);
        }
    }
}

} // verus!
