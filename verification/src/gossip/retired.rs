//! The retired kinds of gossip value. Nodes no longer act on them, but a
//! message may still carry them: they are read, checked, and shown in the
//! effects record with no data. What is kept of each is its kind, its key, its
//! wallclock, and the slots of the two hash lists, which the checks bound.
use vstd::prelude::*;
use crate::wire::{get_bytes, get_u64_le, lemma_extend_reads, read_u32_le, spec_u32_at, u64_le_at};
use crate::gossip::{MAX_SLOT, MAX_WALLCLOCK};

verus! {

/// Variant index of a legacy node record.
pub const TAG_LEGACY_CONTACT_INFO: u32 = 0;

/// Variant index of legacy snapshot hashes.
pub const TAG_LEGACY_SNAPSHOT_HASHES: u32 = 3;

/// Variant index of accounts hashes.
pub const TAG_ACCOUNTS_HASHES: u32 = 4;

/// Variant index of the first legacy version record.
pub const TAG_LEGACY_VERSION: u32 = 6;

/// Variant index of the second legacy version record.
pub const TAG_VERSION: u32 = 7;

/// Variant index of a node instance.
pub const TAG_NODE_INSTANCE: u32 = 8;

/// Variant index of the last voted fork slots of a cluster restart.
pub const TAG_RESTART_LAST_VOTED_FORK_SLOTS: u32 = 12;

/// Variant index of the heaviest fork of a cluster restart.
pub const TAG_RESTART_HEAVIEST_FORK: u32 = 13;

/// Number of socket addresses in a legacy node record.
pub const LEGACY_CONTACT_INFO_SOCKETS: u32 = 10;

/// The kind of a retired value.
#[derive(Clone, Copy, Debug, PartialEq, Eq, Structural)]
pub enum RetiredKind {
    LegacyContactInfo,
    LegacySnapshotHashes,
    AccountsHashes,
    LegacyVersion,
    Version,
    NodeInstance,
    RestartLastVotedForkSlots,
    RestartHeaviestFork,
}

/// Model of a retired value: kind, key, wallclock, and the slots of its hash
/// list (empty for the kinds without one).
pub struct SpecRetiredValue {
    pub kind: RetiredKind,
    pub from: Seq<u8>,
    pub wallclock: u64,
    pub slots: Seq<u64>,
}

#[derive(Debug)]
pub struct RetiredValue {
    pub kind: RetiredKind,
    pub from: Vec<u8>,
    pub wallclock: u64,
    pub slots: Vec<u64>,
}

impl View for RetiredValue {
    type V = SpecRetiredValue;

    open spec fn view(&self) -> SpecRetiredValue {
        SpecRetiredValue {
            kind: self.kind,
            from: self.from@,
            wallclock: self.wallclock,
            slots: self.slots@,
        }
    }
}

/// Whether `tag` is the variant index of a retired kind.
pub open spec fn is_retired_tag(tag: u32) -> bool {
    tag == TAG_LEGACY_CONTACT_INFO || tag == TAG_LEGACY_SNAPSHOT_HASHES || tag
        == TAG_ACCOUNTS_HASHES || tag == TAG_LEGACY_VERSION || tag == TAG_VERSION || tag
        == TAG_NODE_INSTANCE || tag == TAG_RESTART_LAST_VOTED_FORK_SLOTS || tag
        == TAG_RESTART_HEAVIEST_FORK
}

/// A socket address: variant 0 then four octets and a port, or 1 then sixteen
/// octets and a port; the position after it.
pub open spec fn spec_skip_socket_addr(s: Seq<u8>, pos: int) -> Option<int> {
    match spec_u32_at(s, pos) {
        Some((tag, p)) => if tag == 0 && p + 6 <= s.len() {
            Some(p + 6)
        } else if tag == 1 && p + 18 <= s.len() {
            Some(p + 18)
        } else {
            None
        },
        None => None,
    }
}

/// `n` consecutive socket addresses; the position after them.
pub open spec fn spec_skip_socket_addrs(s: Seq<u8>, pos: int, n: nat) -> Option<int>
    decreases n,
{
    if n == 0 {
        Some(pos)
    } else {
        match spec_skip_socket_addrs(s, pos, (n - 1) as nat) {
            Some(p) => spec_skip_socket_addr(s, p),
            None => None,
        }
    }
}

/// The slots of `n` consecutive `(slot, hash)` pairs starting at `start`.
pub open spec fn spec_pair_slots(s: Seq<u8>, start: int, n: nat) -> Seq<u64> {
    Seq::new(n, |i: int| u64_le_at(s, start + 40 * i))
}

/// An optional `u32`: a byte 0, or a byte 1 and the word; the position after it.
pub open spec fn spec_skip_option_u32(s: Seq<u8>, pos: int) -> Option<int> {
    if 0 <= pos < s.len() {
        if s[pos] == 0 {
            Some(pos + 1)
        } else if s[pos] == 1 && pos + 5 <= s.len() {
            Some(pos + 5)
        } else {
            None
        }
    } else {
        None
    }
}

/// The slot offsets of a restart record: variant 0 and a counted list of
/// `u16` run lengths, or variant 1 and a bit vector of bytes (storage a byte 0,
/// or a byte 1 and non-empty counted bytes; then a length that the storage
/// holds); the position after them.
pub open spec fn spec_skip_slot_offsets(s: Seq<u8>, pos: int) -> Option<int> {
    match spec_u32_at(s, pos) {
        Some((tag, p)) => if tag == 0 {
            if p + 8 <= s.len() && p + 8 + 2 * u64_le_at(s, p) <= s.len() {
                Some(p + 8 + 2 * u64_le_at(s, p))
            } else {
                None
            }
        } else if tag == 1 && p < s.len() {
            let storage: Option<(int, int)> = if s[p] == 0 {
                Some((0, p + 1))
            } else if s[p] == 1 && p + 9 <= s.len() && u64_le_at(s, p + 1) > 0 && p + 9
                + u64_le_at(s, p + 1) <= s.len() {
                Some((u64_le_at(s, p + 1) as int, p + 9 + u64_le_at(s, p + 1)))
            } else {
                None
            };
            match storage {
                Some((nbytes, q)) => if q + 8 <= s.len() && u64_le_at(s, q) <= 8 * nbytes {
                    Some(q + 8)
                } else {
                    None
                },
                None => None,
            }
        } else {
            None
        },
        None => None,
    }
}

/// A value of a retired kind introduced by `tag`, its data starting at `pos`:
/// - legacy node record: key, ten socket addresses, wallclock, shred version;
/// - legacy snapshot hashes and accounts hashes: key, counted `(slot, hash)`
///   pairs, wallclock;
/// - first legacy version: key, wallclock, three `u16` release numbers, an
///   optional commit;
/// - second legacy version: the same, then a `u32` feature set;
/// - node instance: key, wallclock, timestamp, token;
/// - last voted fork slots: key, wallclock, slot offsets, last voted slot and
///   hash, shred version;
/// - heaviest fork: key, wallclock, last slot and hash, observed stake, shred
///   version.
pub open spec fn spec_parse_retired(s: Seq<u8>, tag: u32, pos: int) -> Option<
    (SpecRetiredValue, int),
> {
    if 0 <= pos && pos + 32 <= s.len() {
        let from = s.subrange(pos, pos + 32);
        let p = pos + 32;
        if tag == TAG_LEGACY_CONTACT_INFO {
            match spec_skip_socket_addrs(s, p, LEGACY_CONTACT_INFO_SOCKETS as nat) {
                Some(q) => if q + 10 <= s.len() {
                    Some(
                        (
                            SpecRetiredValue {
                                kind: RetiredKind::LegacyContactInfo,
                                from,
                                wallclock: u64_le_at(s, q),
                                slots: seq![],
                            },
                            q + 10,
                        ),
                    )
                } else {
                    None
                },
                None => None,
            }
        } else if tag == TAG_LEGACY_SNAPSHOT_HASHES || tag == TAG_ACCOUNTS_HASHES {
            if p + 8 <= s.len() && p + 8 + 40 * u64_le_at(s, p) + 8 <= s.len() {
                let n = u64_le_at(s, p);
                let after = p + 8 + 40 * n;
                Some(
                    (
                        SpecRetiredValue {
                            kind: if tag == TAG_ACCOUNTS_HASHES {
                                RetiredKind::AccountsHashes
                            } else {
                                RetiredKind::LegacySnapshotHashes
                            },
                            from,
                            wallclock: u64_le_at(s, after),
                            slots: spec_pair_slots(s, p + 8, n as nat),
                        },
                        after + 8,
                    ),
                )
            } else {
                None
            }
        } else if tag == TAG_LEGACY_VERSION || tag == TAG_VERSION {
            if p + 14 <= s.len() {
                match spec_skip_option_u32(s, p + 14) {
                    Some(q) => {
                        let end = if tag == TAG_VERSION {
                            q + 4
                        } else {
                            q
                        };
                        if end <= s.len() {
                            Some(
                                (
                                    SpecRetiredValue {
                                        kind: if tag == TAG_VERSION {
                                            RetiredKind::Version
                                        } else {
                                            RetiredKind::LegacyVersion
                                        },
                                        from,
                                        wallclock: u64_le_at(s, p),
                                        slots: seq![],
                                    },
                                    end,
                                ),
                            )
                        } else {
                            None
                        }
                    },
                    None => None,
                }
            } else {
                None
            }
        } else if tag == TAG_NODE_INSTANCE {
            if p + 24 <= s.len() {
                Some(
                    (
                        SpecRetiredValue {
                            kind: RetiredKind::NodeInstance,
                            from,
                            wallclock: u64_le_at(s, p),
                            slots: seq![],
                        },
                        p + 24,
                    ),
                )
            } else {
                None
            }
        } else if tag == TAG_RESTART_LAST_VOTED_FORK_SLOTS {
            if p + 8 <= s.len() {
                match spec_skip_slot_offsets(s, p + 8) {
                    Some(q) => if q + 42 <= s.len() {
                        Some(
                            (
                                SpecRetiredValue {
                                    kind: RetiredKind::RestartLastVotedForkSlots,
                                    from,
                                    wallclock: u64_le_at(s, p),
                                    slots: seq![],
                                },
                                q + 42,
                            ),
                        )
                    } else {
                        None
                    },
                    None => None,
                }
            } else {
                None
            }
        } else if tag == TAG_RESTART_HEAVIEST_FORK {
            if p + 58 <= s.len() {
                Some(
                    (
                        SpecRetiredValue {
                            kind: RetiredKind::RestartHeaviestFork,
                            from,
                            wallclock: u64_le_at(s, p),
                            slots: seq![],
                        },
                        p + 58,
                    ),
                )
            } else {
                None
            }
        } else {
            None
        }
    } else {
        None
    }
}

/// Whether a retired value is within bounds: the restart records always are;
/// the others need a wallclock below the bound, and the two hash lists also
/// slots below the slot bound.
pub open spec fn spec_sanitize_retired(v: SpecRetiredValue) -> bool {
    match v.kind {
        RetiredKind::RestartLastVotedForkSlots => true,
        RetiredKind::RestartHeaviestFork => true,
        RetiredKind::LegacySnapshotHashes => v.wallclock < MAX_WALLCLOCK && spec_slots_below_max(
            v.slots,
        ),
        RetiredKind::AccountsHashes => v.wallclock < MAX_WALLCLOCK && spec_slots_below_max(v.slots),
        _ => v.wallclock < MAX_WALLCLOCK,
    }
}

/// Whether every slot is below the slot bound.
pub open spec fn spec_slots_below_max(slots: Seq<u64>) -> bool {
    forall|i: int| 0 <= i < slots.len() ==> #[trigger] slots[i] < MAX_SLOT
}

fn skip_socket_addr(s: &[u8], pos: usize) -> (r: Option<usize>)
    ensures
        match r {
            Some(p) => spec_skip_socket_addr(s@, pos as int) == Some(p as int),
            None => spec_skip_socket_addr(s@, pos as int) is None,
        },
{
    match read_u32_le(s, pos) {
        Some((tag, p)) => if tag == 0 && s.len() - p >= 6 {
            Some(p + 6)
        } else if tag == 1 && s.len() - p >= 18 {
            Some(p + 18)
        } else {
            None
        },
        None => None,
    }
}

proof fn lemma_socket_addrs_fail_monotone(s: Seq<u8>, pos: int, i: nat, n: nat)
    requires
        i <= n,
        spec_skip_socket_addrs(s, pos, i) is None,
    ensures
        spec_skip_socket_addrs(s, pos, n) is None,
    decreases n,
{
    if n > i {
        lemma_socket_addrs_fail_monotone(s, pos, i, (n - 1) as nat);
    }
}

fn skip_socket_addrs(s: &[u8], pos: usize, n: u32) -> (r: Option<usize>)
    ensures
        match r {
            Some(p) => spec_skip_socket_addrs(s@, pos as int, n as nat) == Some(p as int),
            None => spec_skip_socket_addrs(s@, pos as int, n as nat) is None,
        },
{
    let mut p: usize = pos;
    let mut i: u32 = 0;
    while i < n
        invariant
            i <= n,
            spec_skip_socket_addrs(s@, pos as int, i as nat) == Some(p as int),
        decreases n - i,
    {
        match skip_socket_addr(s, p) {
            Some(q) => {
                p = q;
                i = i + 1;
            },
            None => {
                proof {
                    lemma_socket_addrs_fail_monotone(s@, pos as int, (i + 1) as nat, n as nat);
                }
                return None;
            },
        }
    }
    Some(p)
}

fn get_pair_slots(s: &[u8], start: usize, n: usize) -> (out: Vec<u64>)
    requires
        start + 40 * n <= s@.len(),
    ensures
        out@ == spec_pair_slots(s@, start as int, n as nat),
{
    let mut out: Vec<u64> = Vec::new();
    let mut i: usize = 0;
    while i < n
        invariant
            i <= n,
            start + 40 * n <= s.len(),
            out@ == spec_pair_slots(s@, start as int, i as nat),
        decreases n - i,
    {
        out.push(get_u64_le(s, start + 40 * i));
        i = i + 1;
        assert(out@ =~= spec_pair_slots(s@, start as int, i as nat));
    }
    out
}

fn skip_option_u32(s: &[u8], pos: usize) -> (r: Option<usize>)
    ensures
        match r {
            Some(p) => spec_skip_option_u32(s@, pos as int) == Some(p as int),
            None => spec_skip_option_u32(s@, pos as int) is None,
        },
{
    if pos >= s.len() {
        None
    } else if s[pos] == 0 {
        Some(pos + 1)
    } else if s[pos] == 1 && s.len() - pos >= 5 {
        Some(pos + 5)
    } else {
        None
    }
}

fn skip_slot_offsets(s: &[u8], pos: usize) -> (r: Option<usize>)
    ensures
        match r {
            Some(p) => spec_skip_slot_offsets(s@, pos as int) == Some(p as int),
            None => spec_skip_slot_offsets(s@, pos as int) is None,
        },
{
    let (tag, p) = match read_u32_le(s, pos) {
        Some(x) => x,
        None => return None,
    };
    if tag == 0 {
        if s.len() - p < 8 {
            return None;
        }
        let n = get_u64_le(s, p);
        let avail = ((s.len() - p - 8) / 2) as u64;
        if n > avail {
            return None;
        }
        Some(p + 8 + 2 * (n as usize))
    } else if tag == 1 && p < s.len() {
        let (nbytes, q) = if s[p] == 0 {
            (0u64, p + 1)
        } else if s[p] == 1 && s.len() - p >= 9 {
            let m = get_u64_le(s, p + 1);
            if m == 0 || m > (s.len() - p - 9) as u64 {
                return None;
            }
            (m, p + 9 + m as usize)
        } else {
            return None;
        };
        if s.len() - q < 8 {
            return None;
        }
        let len = get_u64_le(s, q);
        if len / 8 > nbytes || (len / 8 == nbytes && len % 8 != 0) {
            return None;
        }
        Some(q + 8)
    } else {
        None
    }
}

pub fn parse_retired(s: &[u8], tag: u32, pos: usize) -> (r: Option<(RetiredValue, usize)>)
    ensures
        crate::wire::lift(r) == spec_parse_retired(s@, tag, pos as int),
{
    if pos > s.len() || s.len() - pos < 32 {
        return None;
    }
    let p = pos + 32;
    if tag == TAG_LEGACY_CONTACT_INFO {
        match skip_socket_addrs(s, p, LEGACY_CONTACT_INFO_SOCKETS) {
            Some(q) => {
                if s.len() - q < 10 {
                    return None;
                }
                let from = get_bytes(s, pos, 32);
                let slots: Vec<u64> = Vec::new();
                assert(slots@ =~= seq![]);
                Some(
                    (
                        RetiredValue {
                            kind: RetiredKind::LegacyContactInfo,
                            from,
                            wallclock: get_u64_le(s, q),
                            slots,
                        },
                        q + 10,
                    ),
                )
            },
            None => None,
        }
    } else if tag == TAG_LEGACY_SNAPSHOT_HASHES || tag == TAG_ACCOUNTS_HASHES {
        if s.len() - p < 16 {
            proof {
                assert(p + 8 + 40 * u64_le_at(s@, p as int) + 8 > s@.len()) by (nonlinear_arith)
                    requires
                        p + 16 > s@.len(),
                        u64_le_at(s@, p as int) >= 0,
                ;
            }
            return None;
        }
        let n = get_u64_le(s, p);
        let avail = (s.len() - p - 16) / 40;
        if n > avail as u64 {
            proof {
                assert(p + 8 + 40 * n + 8 > s@.len()) by (nonlinear_arith)
                    requires
                        n > avail,
                        avail == (s@.len() - p - 16) / 40,
                        s@.len() - p - 16 >= 0,
                ;
            }
            return None;
        }
        let n = n as usize;
        proof {
            assert(p + 8 + 40 * n + 8 <= s@.len()) by (nonlinear_arith)
                requires
                    n <= avail,
                    avail == (s@.len() - p - 16) / 40,
                    s@.len() - p - 16 >= 0,
            ;
        }
        let slots = get_pair_slots(s, p + 8, n);
        let after = p + 8 + 40 * n;
        let from = get_bytes(s, pos, 32);
        let kind = if tag == TAG_ACCOUNTS_HASHES {
            RetiredKind::AccountsHashes
        } else {
            RetiredKind::LegacySnapshotHashes
        };
        Some((RetiredValue { kind, from, wallclock: get_u64_le(s, after), slots }, after + 8))
    } else if tag == TAG_LEGACY_VERSION || tag == TAG_VERSION {
        if s.len() - p < 14 {
            return None;
        }
        match skip_option_u32(s, p + 14) {
            Some(q) => {
                let end: usize;
                if tag == TAG_VERSION {
                    if s.len() - q < 4 {
                        return None;
                    }
                    end = q + 4;
                } else {
                    end = q;
                }
                let from = get_bytes(s, pos, 32);
                let slots: Vec<u64> = Vec::new();
                assert(slots@ =~= seq![]);
                let kind = if tag == TAG_VERSION {
                    RetiredKind::Version
                } else {
                    RetiredKind::LegacyVersion
                };
                Some((RetiredValue { kind, from, wallclock: get_u64_le(s, p), slots }, end))
            },
            None => None,
        }
    } else if tag == TAG_NODE_INSTANCE {
        if s.len() - p < 24 {
            return None;
        }
        let from = get_bytes(s, pos, 32);
        let slots: Vec<u64> = Vec::new();
        assert(slots@ =~= seq![]);
        Some(
            (
                RetiredValue {
                    kind: RetiredKind::NodeInstance,
                    from,
                    wallclock: get_u64_le(s, p),
                    slots,
                },
                p + 24,
            ),
        )
    } else if tag == TAG_RESTART_LAST_VOTED_FORK_SLOTS {
        if s.len() - p < 8 {
            return None;
        }
        match skip_slot_offsets(s, p + 8) {
            Some(q) => {
                if s.len() - q < 42 {
                    return None;
                }
                let from = get_bytes(s, pos, 32);
                let slots: Vec<u64> = Vec::new();
                assert(slots@ =~= seq![]);
                Some(
                    (
                        RetiredValue {
                            kind: RetiredKind::RestartLastVotedForkSlots,
                            from,
                            wallclock: get_u64_le(s, p),
                            slots,
                        },
                        q + 42,
                    ),
                )
            },
            None => None,
        }
    } else if tag == TAG_RESTART_HEAVIEST_FORK {
        if s.len() - p < 58 {
            return None;
        }
        let from = get_bytes(s, pos, 32);
        let slots: Vec<u64> = Vec::new();
        assert(slots@ =~= seq![]);
        Some(
            (
                RetiredValue {
                    kind: RetiredKind::RestartHeaviestFork,
                    from,
                    wallclock: get_u64_le(s, p),
                    slots,
                },
                p + 58,
            ),
        )
    } else {
        None
    }
}

fn slots_below_max(slots: &Vec<u64>) -> (r: bool)
    ensures
        r == spec_slots_below_max(slots@),
{
    let mut i: usize = 0;
    while i < slots.len()
        invariant
            i <= slots@.len(),
            forall|j: int| 0 <= j < i ==> #[trigger] slots@[j] < MAX_SLOT,
        decreases slots@.len() - i,
    {
        if slots[i] >= MAX_SLOT {
            return false;
        }
        i = i + 1;
    }
    true
}

pub fn sanitize_retired(v: &RetiredValue) -> (r: bool)
    ensures
        r == spec_sanitize_retired(v@),
{
    match v.kind {
        RetiredKind::RestartLastVotedForkSlots => true,
        RetiredKind::RestartHeaviestFork => true,
        RetiredKind::LegacySnapshotHashes => v.wallclock < MAX_WALLCLOCK && slots_below_max(&v.slots),
        RetiredKind::AccountsHashes => v.wallclock < MAX_WALLCLOCK && slots_below_max(&v.slots),
        _ => v.wallclock < MAX_WALLCLOCK,
    }
}

proof fn lemma_extend_socket_addrs(s: Seq<u8>, t: Seq<u8>, pos: int, n: nat)
    requires
        0 <= pos <= s.len(),
        spec_skip_socket_addrs(s, pos, n) is Some,
    ensures
        spec_skip_socket_addrs(s + t, pos, n) == spec_skip_socket_addrs(s, pos, n),
        pos <= spec_skip_socket_addrs(s, pos, n).unwrap() <= s.len(),
    decreases n,
{
    lemma_extend_reads(s, t);
    if n > 0 {
        lemma_extend_socket_addrs(s, t, pos, (n - 1) as nat);
    }
}

/// A retired value read from `s` reads the same from any extension of `s`,
/// and ends within `s`.
pub proof fn lemma_extend_retired(s: Seq<u8>, t: Seq<u8>, tag: u32, pos: int)
    requires
        spec_parse_retired(s, tag, pos) is Some,
    ensures
        spec_parse_retired(s + t, tag, pos) == spec_parse_retired(s, tag, pos),
        spec_parse_retired(s, tag, pos).unwrap().1 <= s.len(),
{
    lemma_extend_reads(s, t);
    let p = pos + 32;
    if tag == TAG_LEGACY_CONTACT_INFO {
        lemma_extend_socket_addrs(s, t, p, LEGACY_CONTACT_INFO_SOCKETS as nat);
    } else if tag == TAG_LEGACY_SNAPSHOT_HASHES || tag == TAG_ACCOUNTS_HASHES {
        let n = u64_le_at(s, p);
        assert forall|i: int| 0 <= i < n implies #[trigger] spec_pair_slots(s + t, p + 8, n as nat)[i]
            == spec_pair_slots(s, p + 8, n as nat)[i] by {
            assert(p + 8 + 40 * i + 8 <= p + 8 + 40 * n) by (nonlinear_arith)
                requires
                    0 <= i < n,
            ;
        }
        assert(spec_pair_slots(s + t, p + 8, n as nat) =~= spec_pair_slots(s, p + 8, n as nat));
    }
}

} // verus!
