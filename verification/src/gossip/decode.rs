//! Decoding of the fixed-width binary encoding of gossip messages.
//!
//! Integers are little-endian and fixed-width, enum variants are introduced by
//! a `u32` index, and a list is a `u64` count followed by its items.
use vstd::prelude::*;
use crate::wire::{
    get_bytes, get_u64_le, lift, read_u32_le, spec_u32_at, u64_le_at,
};
use crate::gossip::protocol::{
    bytes_seq_view, crds_values_view, slot_hashes_view, CrdsData, CrdsValue, LowestSlot, Ping,
    Pong, PruneData, SnapshotHashes, SpecCrdsData, SpecCrdsValue, SpecLowestSlot, SpecPing,
    SpecPong, SpecProtocol, SpecPruneData, SpecSnapshotHashes, Protocol,
};
use crate::gossip::PACKET_DATA_SIZE;
use crate::gossip::contact_info::{parse_contact_info, spec_parse_contact_info};
use crate::gossip::duplicate_shred::{parse_duplicate_shred, spec_parse_duplicate_shred};
use crate::gossip::epoch_slots::{parse_epoch_slots, spec_parse_epoch_slots};
use crate::gossip::vote::{parse_vote, spec_parse_vote};
use crate::gossip::retired::{
    is_retired_tag, parse_retired, spec_parse_retired, TAG_ACCOUNTS_HASHES,
    TAG_LEGACY_CONTACT_INFO, TAG_LEGACY_SNAPSHOT_HASHES, TAG_LEGACY_VERSION, TAG_NODE_INSTANCE,
    TAG_RESTART_HEAVIEST_FORK, TAG_RESTART_LAST_VOTED_FORK_SLOTS, TAG_VERSION,
};
use crate::gossip::pull_request::{parse_crds_filter, spec_parse_crds_filter};

verus! {

/// Variant index of a pull request.
pub const TAG_PULL_REQUEST: u32 = 0;

/// Variant index of a pull response.
pub const TAG_PULL_RESPONSE: u32 = 1;

/// Variant index of a push message.
pub const TAG_PUSH_MESSAGE: u32 = 2;

/// Variant index of a prune message.
pub const TAG_PRUNE_MESSAGE: u32 = 3;

/// Variant index of a ping.
pub const TAG_PING: u32 = 4;

/// Variant index of a pong.
pub const TAG_PONG: u32 = 5;

/// Variant index of lowest-slot data.
pub const TAG_LOWEST_SLOT: u32 = 2;

/// Variant index of a vote.
pub const TAG_VOTE: u32 = 1;

/// Variant index of epoch-slots data.
pub const TAG_EPOCH_SLOTS: u32 = 5;

/// Variant index of a duplicate-shred proof chunk.
pub const TAG_DUPLICATE_SHRED: u32 = 9;

/// Variant index of snapshot-hashes data.
pub const TAG_SNAPSHOT_HASHES: u32 = 10;

/// Variant index of a node record.
pub const TAG_CONTACT_INFO: u32 = 11;

/// A ping (or a pong) body: three fields of 32, 32 and 64 bytes.
pub open spec fn spec_parse_ping(s: Seq<u8>, pos: int) -> Option<(SpecPing, int)> {
    if 0 <= pos && pos + 128 <= s.len() {
        Some(
            (
                SpecPing {
                    from: s.subrange(pos, pos + 32),
                    token: s.subrange(pos + 32, pos + 64),
                    signature: s.subrange(pos + 64, pos + 128),
                },
                pos + 128,
            ),
        )
    } else {
        None
    }
}

pub open spec fn spec_parse_pong(s: Seq<u8>, pos: int) -> Option<(SpecPong, int)> {
    if 0 <= pos && pos + 128 <= s.len() {
        Some(
            (
                SpecPong {
                    from: s.subrange(pos, pos + 32),
                    hash: s.subrange(pos + 32, pos + 64),
                    signature: s.subrange(pos + 64, pos + 128),
                },
                pos + 128,
            ),
        )
    } else {
        None
    }
}

/// `n` consecutive 32-byte keys starting at `start`.
pub open spec fn spec_keys(s: Seq<u8>, start: int, n: nat) -> Seq<Seq<u8>> {
    Seq::new(n, |i: int| s.subrange(start + 32 * i, start + 32 * i + 32))
}

/// Prune data: key, list of pruned keys, signature, destination, wallclock.
pub open spec fn spec_parse_prune_data(s: Seq<u8>, pos: int) -> Option<(SpecPruneData, int)> {
    if 0 <= pos && pos + 40 <= s.len() {
        let n = u64_le_at(s, pos + 32);
        let items = pos + 40;
        let after = items + 32 * n;
        if after + 104 <= s.len() {
            Some(
                (
                    SpecPruneData {
                        pubkey: s.subrange(pos, pos + 32),
                        prunes: spec_keys(s, items, n as nat),
                        signature: s.subrange(after, after + 64),
                        destination: s.subrange(after + 64, after + 96),
                        wallclock: u64_le_at(s, after + 96),
                    },
                    after + 104,
                ),
            )
        } else {
            None
        }
    } else {
        None
    }
}

/// Lowest-slot data: index byte, key, root, lowest, two deprecated lists, wallclock.
/// Only empty deprecated lists are read; any other content is rejected.
pub open spec fn spec_parse_lowest_slot(s: Seq<u8>, pos: int) -> Option<(SpecCrdsData, int)> {
    if 0 <= pos && pos + 73 <= s.len() && u64_le_at(s, pos + 49) == 0 && u64_le_at(s, pos + 57)
        == 0 {
        Some(
            (
                SpecCrdsData::LowestSlot(
                    s[pos],
                    SpecLowestSlot {
                        from: s.subrange(pos + 1, pos + 33),
                        root: u64_le_at(s, pos + 33),
                        lowest: u64_le_at(s, pos + 41),
                        wallclock: u64_le_at(s, pos + 65),
                    },
                ),
                pos + 73,
            ),
        )
    } else {
        None
    }
}

/// `n` consecutive `(slot, hash)` pairs starting at `start`.
pub open spec fn spec_slot_hashes(s: Seq<u8>, start: int, n: nat) -> Seq<(u64, Seq<u8>)> {
    Seq::new(
        n,
        |i: int| (u64_le_at(s, start + 40 * i), s.subrange(start + 40 * i + 8, start + 40 * i + 40)),
    )
}

/// Snapshot-hashes data: key, full slot, full hash, incremental pairs, wallclock.
pub open spec fn spec_parse_snapshot_hashes(s: Seq<u8>, pos: int) -> Option<(SpecCrdsData, int)> {
    if 0 <= pos && pos + 80 <= s.len() {
        let n = u64_le_at(s, pos + 72);
        let items = pos + 80;
        let after = items + 40 * n;
        if after + 8 <= s.len() {
            Some(
                (
                    SpecCrdsData::SnapshotHashes(
                        SpecSnapshotHashes {
                            from: s.subrange(pos, pos + 32),
                            full_slot: u64_le_at(s, pos + 32),
                            full_hash: s.subrange(pos + 40, pos + 72),
                            incremental: spec_slot_hashes(s, items, n as nat),
                            wallclock: u64_le_at(s, after),
                        },
                    ),
                    after + 8,
                ),
            )
        } else {
            None
        }
    } else {
        None
    }
}

/// The data of a gossip value, introduced by its variant index: a vote (1),
/// lowest-slot data (2), epoch slots (5), a duplicate-shred chunk (9),
/// snapshot hashes (10), a node record (11), or a value of a retired kind
/// (0, 3, 4, 6, 7, 8, 12, 13).
#[verifier::opaque]
pub open spec fn spec_parse_crds_data(s: Seq<u8>, pos: int) -> Option<(SpecCrdsData, int)> {
    match spec_u32_at(s, pos) {
        Some((tag, p)) => if tag == TAG_LOWEST_SLOT {
            spec_parse_lowest_slot(s, p)
        } else if tag == TAG_SNAPSHOT_HASHES {
            spec_parse_snapshot_hashes(s, p)
        } else if tag == TAG_CONTACT_INFO {
            match spec_parse_contact_info(s, p) {
                Some((ci, q)) => Some((SpecCrdsData::ContactInfo(ci), q)),
                None => None,
            }
        } else if tag == TAG_DUPLICATE_SHRED {
            match spec_parse_duplicate_shred(s, p) {
                Some((ix, d, q)) => Some((SpecCrdsData::DuplicateShred(ix, d), q)),
                None => None,
            }
        } else if tag == TAG_EPOCH_SLOTS {
            match spec_parse_epoch_slots(s, p) {
                Some((ix, e, q)) => Some((SpecCrdsData::EpochSlots(ix, e), q)),
                None => None,
            }
        } else if tag == TAG_VOTE {
            match spec_parse_vote(s, p) {
                Some((ix, v, q)) => Some((SpecCrdsData::Vote(ix, v), q)),
                None => None,
            }
        } else if is_retired_tag(tag) {
            match spec_parse_retired(s, tag, p) {
                Some((r, q)) => Some((SpecCrdsData::Retired(r), q)),
                None => None,
            }
        } else {
            None
        },
        None => None,
    }
}

/// A signed gossip value: 64-byte signature then data.
pub open spec fn spec_parse_crds_value(s: Seq<u8>, pos: int) -> Option<(SpecCrdsValue, int)> {
    if 0 <= pos && pos + 64 <= s.len() {
        match spec_parse_crds_data(s, pos + 64) {
            Some((d, p)) => Some((SpecCrdsValue { signature: s.subrange(pos, pos + 64), data: d }, p)),
            None => None,
        }
    } else {
        None
    }
}

/// `n` consecutive gossip values starting at `pos`.
pub open spec fn spec_parse_crds_values(s: Seq<u8>, pos: int, n: nat) -> Option<
    (Seq<SpecCrdsValue>, int),
>
    decreases n,
{
    if n == 0 {
        Some((seq![], pos))
    } else {
        match spec_parse_crds_values(s, pos, (n - 1) as nat) {
            Some((vs, p)) => match spec_parse_crds_value(s, p) {
                Some((v, q)) => Some((vs.push(v), q)),
                None => None,
            },
            None => None,
        }
    }
}

/// A key followed by a counted list of gossip values.
pub open spec fn spec_parse_values_message(s: Seq<u8>, pos: int) -> Option<
    (Seq<u8>, Seq<SpecCrdsValue>, int),
> {
    if 0 <= pos && pos + 40 <= s.len() {
        match spec_parse_crds_values(s, pos + 40, u64_le_at(s, pos + 32) as nat) {
            Some((vals, p)) => Some((s.subrange(pos, pos + 32), vals, p)),
            None => None,
        }
    } else {
        None
    }
}

/// A protocol message, introduced by its variant index.
#[verifier::opaque]
pub open spec fn spec_parse_protocol(s: Seq<u8>, pos: int) -> Option<(SpecProtocol, int)> {
    match spec_u32_at(s, pos) {
        Some((tag, p)) => if tag == TAG_PULL_REQUEST {
            match spec_parse_crds_filter(s, p) {
                Some((f, q)) => match spec_parse_crds_value(s, q) {
                    Some((v, r)) => Some((SpecProtocol::PullRequest(f, v), r)),
                    None => None,
                },
                None => None,
            }
        } else if tag == TAG_PULL_RESPONSE || tag == TAG_PUSH_MESSAGE {
            match spec_parse_values_message(s, p) {
                Some((pk, vals, q)) => Some(
                    (
                        if tag == TAG_PULL_RESPONSE {
                            SpecProtocol::PullResponse(pk, vals)
                        } else {
                            SpecProtocol::PushMessage(pk, vals)
                        },
                        q,
                    ),
                ),
                None => None,
            }
        } else if tag == TAG_PRUNE_MESSAGE {
            if p + 32 <= s.len() {
                match spec_parse_prune_data(s, p + 32) {
                    Some((pd, q)) => Some(
                        (SpecProtocol::PruneMessage(s.subrange(p, p + 32), pd), q),
                    ),
                    None => None,
                }
            } else {
                None
            }
        } else if tag == TAG_PING {
            match spec_parse_ping(s, p) {
                Some((ping, q)) => Some((SpecProtocol::PingMessage(ping), q)),
                None => None,
            }
        } else if tag == TAG_PONG {
            match spec_parse_pong(s, p) {
                Some((pong, q)) => Some((SpecProtocol::PongMessage(pong), q)),
                None => None,
            }
        } else {
            None
        },
        None => None,
    }
}

/// The message that a datagram holds: it fits in a packet and is consumed exactly.
pub open spec fn spec_decode_protocol(s: Seq<u8>) -> Option<SpecProtocol> {
    if s.len() > PACKET_DATA_SIZE {
        None
    } else {
        match spec_parse_protocol(s, 0) {
            Some((p, end)) => if end == s.len() {
                Some(p)
            } else {
                None
            },
            None => None,
        }
    }
}

/// Once reading the first `i` values fails, reading more of them fails too.
pub proof fn lemma_crds_values_fail_monotone(s: Seq<u8>, pos: int, i: nat, n: nat)
    requires
        i <= n,
        spec_parse_crds_values(s, pos, i) is None,
    ensures
        spec_parse_crds_values(s, pos, n) is None,
    decreases n,
{
    if n > i {
        lemma_crds_values_fail_monotone(s, pos, i, (n - 1) as nat);
    }
}

pub fn parse_ping(s: &[u8], pos: usize) -> (r: Option<(Ping, usize)>)
    ensures
        lift(r) == spec_parse_ping(s@, pos as int),
{
    if pos <= s.len() && s.len() - pos >= 128 {
        let from = get_bytes(s, pos, 32);
        let token = get_bytes(s, pos + 32, 32);
        let signature = get_bytes(s, pos + 64, 64);
        Some((Ping { from, token, signature }, pos + 128))
    } else {
        None
    }
}

pub fn parse_pong(s: &[u8], pos: usize) -> (r: Option<(Pong, usize)>)
    ensures
        lift(r) == spec_parse_pong(s@, pos as int),
{
    if pos <= s.len() && s.len() - pos >= 128 {
        let from = get_bytes(s, pos, 32);
        let hash = get_bytes(s, pos + 32, 32);
        let signature = get_bytes(s, pos + 64, 64);
        Some((Pong { from, hash, signature }, pos + 128))
    } else {
        None
    }
}

/// Reads `n` consecutive 32-byte keys; the caller has checked that they fit.
fn get_keys(s: &[u8], start: usize, n: usize) -> (out: Vec<Vec<u8>>)
    requires
        start + 32 * n <= s@.len(),
    ensures
        bytes_seq_view(out@) == spec_keys(s@, start as int, n as nat),
{
    let mut out: Vec<Vec<u8>> = Vec::new();
    let mut i: usize = 0;
    let mut p: usize = start;
    while i < n
        invariant
            i <= n,
            start + 32 * n <= s.len(),
            p == start + 32 * i,
            bytes_seq_view(out@) == spec_keys(s@, start as int, i as nat),
        decreases n - i,
    {
        let k = get_bytes(s, p, 32);
        let ghost prev = out@;
        let ghost kv = k@;
        out.push(k);
        proof {
            assert(bytes_seq_view(out@) =~= bytes_seq_view(prev).push(kv));
            assert(spec_keys(s@, start as int, (i + 1) as nat) =~= spec_keys(
                s@,
                start as int,
                i as nat,
            ).push(kv));
        }
        i = i + 1;
        p = p + 32;
    }
    out
}

/// How many items of `size` bytes fit in `avail` bytes, as a `u64` bound.
proof fn lemma_fit(avail: int, size: int, n: int)
    requires
        avail >= 0,
        size > 0,
        n >= 0,
    ensures
        n <= avail / size <==> size * n <= avail,
{
    assert(n <= avail / size <==> size * n <= avail) by (nonlinear_arith)
        requires
            avail >= 0,
            size > 0,
            n >= 0,
    ;
}

pub fn parse_prune_data(s: &[u8], pos: usize) -> (r: Option<(PruneData, usize)>)
    ensures
        lift(r) == spec_parse_prune_data(s@, pos as int),
{
    if pos > s.len() || s.len() - pos < 40 {
        return None;
    }
    let n = get_u64_le(s, pos + 32);
    let items = pos + 40;
    if s.len() - items < 104 {
        proof {
            assert(items + 32 * n + 104 > s@.len()) by (nonlinear_arith)
                requires
                    n >= 0,
                    items + 104 > s@.len(),
            ;
        }
        return None;
    }
    let avail = s.len() - items - 104;
    let max_n = avail / 32;
    proof {
        lemma_fit(avail as int, 32, n as int);
    }
    if n > max_n as u64 {
        return None;
    }
    let n = n as usize;
    let prunes = get_keys(s, items, n);
    let after = items + 32 * n;
    let pubkey = get_bytes(s, pos, 32);
    let signature = get_bytes(s, after, 64);
    let destination = get_bytes(s, after + 64, 32);
    let wallclock = get_u64_le(s, after + 96);
    Some((PruneData { pubkey, prunes, signature, destination, wallclock }, after + 104))
}

pub fn parse_lowest_slot(s: &[u8], pos: usize) -> (r: Option<(CrdsData, usize)>)
    ensures
        lift(r) == spec_parse_lowest_slot(s@, pos as int),
{
    if pos > s.len() || s.len() - pos < 73 {
        return None;
    }
    if get_u64_le(s, pos + 49) != 0 || get_u64_le(s, pos + 57) != 0 {
        return None;
    }
    let ix = s[pos];
    let from = get_bytes(s, pos + 1, 32);
    let root = get_u64_le(s, pos + 33);
    let lowest = get_u64_le(s, pos + 41);
    let wallclock = get_u64_le(s, pos + 65);
    Some((CrdsData::LowestSlot(ix, LowestSlot { from, root, lowest, wallclock }), pos + 73))
}

/// Reads `n` consecutive `(slot, hash)` pairs; the caller has checked that they fit.
fn get_slot_hashes(s: &[u8], start: usize, n: usize) -> (out: Vec<(u64, Vec<u8>)>)
    requires
        start + 40 * n <= s@.len(),
    ensures
        slot_hashes_view(out@) == spec_slot_hashes(s@, start as int, n as nat),
{
    let mut out: Vec<(u64, Vec<u8>)> = Vec::new();
    let mut i: usize = 0;
    let mut p: usize = start;
    while i < n
        invariant
            i <= n,
            start + 40 * n <= s.len(),
            p == start + 40 * i,
            slot_hashes_view(out@) == spec_slot_hashes(s@, start as int, i as nat),
        decreases n - i,
    {
        let slot = get_u64_le(s, p);
        let hash = get_bytes(s, p + 8, 32);
        let ghost prev = out@;
        let ghost item = (slot, hash@);
        out.push((slot, hash));
        proof {
            assert(slot_hashes_view(out@) =~= slot_hashes_view(prev).push(item));
            assert(spec_slot_hashes(s@, start as int, (i + 1) as nat) =~= spec_slot_hashes(
                s@,
                start as int,
                i as nat,
            ).push(item));
        }
        i = i + 1;
        p = p + 40;
    }
    out
}

pub fn parse_snapshot_hashes(s: &[u8], pos: usize) -> (r: Option<(CrdsData, usize)>)
    ensures
        lift(r) == spec_parse_snapshot_hashes(s@, pos as int),
{
    if pos > s.len() || s.len() - pos < 80 {
        return None;
    }
    let n = get_u64_le(s, pos + 72);
    let items = pos + 80;
    if s.len() - items < 8 {
        proof {
            assert(items + 40 * n + 8 > s@.len()) by (nonlinear_arith)
                requires
                    n >= 0,
                    items + 8 > s@.len(),
            ;
        }
        return None;
    }
    let avail = s.len() - items - 8;
    let max_n = avail / 40;
    proof {
        lemma_fit(avail as int, 40, n as int);
    }
    if n > max_n as u64 {
        return None;
    }
    let n = n as usize;
    let incremental = get_slot_hashes(s, items, n);
    let after = items + 40 * n;
    let from = get_bytes(s, pos, 32);
    let full_slot = get_u64_le(s, pos + 32);
    let full_hash = get_bytes(s, pos + 40, 32);
    let wallclock = get_u64_le(s, after);
    Some(
        (
            CrdsData::SnapshotHashes(
                SnapshotHashes { from, full_slot, full_hash, incremental, wallclock },
            ),
            after + 8,
        ),
    )
}

pub fn parse_crds_data(s: &[u8], pos: usize) -> (r: Option<(CrdsData, usize)>)
    ensures
        lift(r) == spec_parse_crds_data(s@, pos as int),
{
    reveal(spec_parse_crds_data);
    match read_u32_le(s, pos) {
        Some((tag, p)) => {
            if tag == TAG_LOWEST_SLOT {
                parse_lowest_slot(s, p)
            } else if tag == TAG_SNAPSHOT_HASHES {
                parse_snapshot_hashes(s, p)
            } else if tag == TAG_CONTACT_INFO {
                match parse_contact_info(s, p) {
                    Some((ci, q)) => Some((CrdsData::ContactInfo(ci), q)),
                    None => None,
                }
            } else if tag == TAG_DUPLICATE_SHRED {
                match parse_duplicate_shred(s, p) {
                    Some((ix, d, q)) => Some((CrdsData::DuplicateShred(ix, d), q)),
                    None => None,
                }
            } else if tag == TAG_EPOCH_SLOTS {
                match parse_epoch_slots(s, p) {
                    Some((ix, e, q)) => Some((CrdsData::EpochSlots(ix, e), q)),
                    None => None,
                }
            } else if tag == TAG_VOTE {
                match parse_vote(s, p) {
                    Some((ix, v, q)) => Some((CrdsData::Vote(ix, v), q)),
                    None => None,
                }
            } else if tag == TAG_LEGACY_CONTACT_INFO || tag == TAG_LEGACY_SNAPSHOT_HASHES || tag
                == TAG_ACCOUNTS_HASHES || tag == TAG_LEGACY_VERSION || tag == TAG_VERSION || tag
                == TAG_NODE_INSTANCE || tag == TAG_RESTART_LAST_VOTED_FORK_SLOTS || tag
                == TAG_RESTART_HEAVIEST_FORK {
                match parse_retired(s, tag, p) {
                    Some((r, q)) => Some((CrdsData::Retired(r), q)),
                    None => None,
                }
            } else {
                None
            }
        },
        None => None,
    }
}

pub fn parse_crds_value(s: &[u8], pos: usize) -> (r: Option<(CrdsValue, usize)>)
    ensures
        lift(r) == spec_parse_crds_value(s@, pos as int),
{
    if pos > s.len() || s.len() - pos < 64 {
        return None;
    }
    match parse_crds_data(s, pos + 64) {
        Some((data, p)) => {
            let signature = get_bytes(s, pos, 64);
            Some((CrdsValue { signature, data }, p))
        },
        None => None,
    }
}

pub fn parse_crds_values(s: &[u8], pos: usize, n: u64) -> (r: Option<(Vec<CrdsValue>, usize)>)
    ensures
        match (r, spec_parse_crds_values(s@, pos as int, n as nat)) {
            (Some((vals, p)), Some((svals, sp))) => crds_values_view(vals@) == svals && p == sp,
            (None, None) => true,
            _ => false,
        },
{
    let mut out: Vec<CrdsValue> = Vec::new();
    let mut p: usize = pos;
    let mut i: u64 = 0;
    while i < n
        invariant
            i <= n,
            spec_parse_crds_values(s@, pos as int, i as nat) == Some(
                (crds_values_view(out@), p as int),
            ),
        decreases n - i,
    {
        match parse_crds_value(s, p) {
            Some((v, q)) => {
                let ghost prev = out@;
                let ghost vv = v@;
                out.push(v);
                p = q;
                i = i + 1;
                assert(crds_values_view(out@) =~= crds_values_view(prev).push(vv));
            },
            None => {
                proof {
                    lemma_crds_values_fail_monotone(s@, pos as int, (i + 1) as nat, n as nat);
                }
                return None;
            },
        }
    }
    Some((out, p))
}

pub fn parse_values_message(s: &[u8], pos: usize) -> (r: Option<(Vec<u8>, Vec<CrdsValue>, usize)>)
    ensures
        match (r, spec_parse_values_message(s@, pos as int)) {
            (Some((pk, vals, p)), Some((spk, svals, sp))) => pk@ == spk && crds_values_view(vals@)
                == svals && p == sp,
            (None, None) => true,
            _ => false,
        },
{
    if pos > s.len() || s.len() - pos < 40 {
        return None;
    }
    let n = get_u64_le(s, pos + 32);
    match parse_crds_values(s, pos + 40, n) {
        Some((vals, p)) => {
            let pk = get_bytes(s, pos, 32);
            Some((pk, vals, p))
        },
        None => None,
    }
}

pub fn parse_protocol(s: &[u8], pos: usize) -> (r: Option<(Protocol, usize)>)
    ensures
        lift(r) == spec_parse_protocol(s@, pos as int),
{
    reveal(spec_parse_protocol);
    match read_u32_le(s, pos) {
        Some((tag, p)) => {
            if tag == TAG_PULL_REQUEST {
                match parse_crds_filter(s, p) {
                    Some((f, q)) => match parse_crds_value(s, q) {
                        Some((v, r)) => Some((Protocol::PullRequest(f, v), r)),
                        None => None,
                    },
                    None => None,
                }
            } else if tag == TAG_PULL_RESPONSE || tag == TAG_PUSH_MESSAGE {
                match parse_values_message(s, p) {
                    Some((pk, vals, q)) => {
                        if tag == TAG_PULL_RESPONSE {
                            Some((Protocol::PullResponse(pk, vals), q))
                        } else {
                            Some((Protocol::PushMessage(pk, vals), q))
                        }
                    },
                    None => None,
                }
            } else if tag == TAG_PRUNE_MESSAGE {
                if s.len() - p >= 32 {
                    match parse_prune_data(s, p + 32) {
                        Some((pd, q)) => {
                            let pk = get_bytes(s, p, 32);
                            Some((Protocol::PruneMessage(pk, pd), q))
                        },
                        None => None,
                    }
                } else {
                    None
                }
            } else if tag == TAG_PING {
                match parse_ping(s, p) {
                    Some((ping, q)) => Some((Protocol::PingMessage(ping), q)),
                    None => None,
                }
            } else if tag == TAG_PONG {
                match parse_pong(s, p) {
                    Some((pong, q)) => Some((Protocol::PongMessage(pong), q)),
                    None => None,
                }
            } else {
                None
            }
        },
        None => None,
    }
}

/// Decodes a whole datagram: it must fit in a packet and be consumed exactly.
pub fn decode_protocol(s: &[u8]) -> (r: Option<Protocol>)
    ensures
        match r {
            Some(p) => spec_decode_protocol(s@) == Some(p@),
            None => spec_decode_protocol(s@) is None,
        },
{
    if s.len() > PACKET_DATA_SIZE {
        return None;
    }
    match parse_protocol(s, 0) {
        Some((p, end)) => {
            if end == s.len() {
                Some(p)
            } else {
                None
            }
        },
        None => None,
    }
}

} // verus!
