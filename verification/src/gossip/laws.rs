//! Properties of the gossip decoder as a whole.
use vstd::prelude::*;
use crate::wire::{
    lemma_extend_reads, le_bytes_u32, le_bytes_u64, lemma_u32_roundtrip, lemma_u64_roundtrip, u32_le_at, u64_le_at,
};
use crate::gossip::{MAX_WALLCLOCK, PACKET_DATA_SIZE};
use crate::gossip::contact_info::lemma_extend_contact_info;
use crate::gossip::duplicate_shred::lemma_extend_duplicate_shred;
use crate::gossip::epoch_slots::lemma_extend_epoch_slots;
use crate::gossip::vote::{lemma_extend_vote, lemma_transaction_bounds};
use crate::gossip::retired::lemma_extend_retired;
use crate::gossip::pull_request::{lemma_extend_crds_filter, spec_parse_crds_filter};
use crate::gossip::convert::{
    spec_convert_crds_data, spec_convert_crds_value, spec_gossip_effects, spec_invalid_effects,
};
use crate::gossip::varint::spec_varint_u64;
use crate::gossip::effects::SpecGossipContactInfo;
use crate::wire::u16_le_at;
use crate::gossip::decode::{
    spec_decode_protocol, spec_keys, spec_parse_crds_data, spec_parse_crds_value,
    spec_parse_crds_values, spec_parse_lowest_slot, spec_parse_ping, spec_parse_pong,
    spec_parse_protocol, spec_parse_prune_data, spec_parse_snapshot_hashes,
    spec_parse_values_message, spec_slot_hashes, TAG_CONTACT_INFO, TAG_DUPLICATE_SHRED,
    TAG_EPOCH_SLOTS, TAG_LOWEST_SLOT, TAG_PING, TAG_PONG, TAG_PRUNE_MESSAGE, TAG_PULL_REQUEST,
    TAG_PULL_RESPONSE, TAG_PUSH_MESSAGE, TAG_SNAPSHOT_HASHES, TAG_VOTE,
};
use crate::gossip::effects::{SpecGossipCrdsValue, SpecGossipEffects, SpecGossipPruneMessage};
use crate::gossip::encode::{concat_bytes, spec_ping_bytes, spec_pong_bytes, spec_prune_bytes};
use crate::gossip::gossip_msg::SpecMsg;
use crate::gossip::gossip_crds_data::SpecData;
use crate::gossip::protocol::{SpecCrdsValue, SpecPing, SpecPong, SpecProtocol, SpecPruneData};

verus! {

/// The `u32` at the start of `le_bytes_u32(v) + rest` is `v`.
proof fn lemma_u32_prefix(v: u32, rest: Seq<u8>)
    ensures
        u32_le_at(le_bytes_u32(v) + rest, 0) == v,
{
    lemma_u32_roundtrip(v);
}

/// The `u64` stored where `le_bytes_u64(v)` was placed is `v`.
proof fn lemma_u64_placed(s: Seq<u8>, at: int, v: u64)
    requires
        0 <= at,
        at + 8 <= s.len(),
        s.subrange(at, at + 8) == le_bytes_u64(v),
    ensures
        u64_le_at(s, at) == v,
{
    lemma_u64_roundtrip(v);
}

/// Keys of 32 bytes laid end to end occupy 32 bytes each, in order.
pub proof fn lemma_concat_keys(items: Seq<Seq<u8>>)
    requires
        forall|i: int| 0 <= i < items.len() ==> (#[trigger] items[i]).len() == 32,
    ensures
        concat_bytes(items).len() == 32 * items.len(),
        forall|i: int|
            0 <= i < items.len() ==> concat_bytes(items).subrange(32 * i, 32 * i + 32)
                == #[trigger] items[i],
    decreases items.len(),
{
    if items.len() > 0 {
        let init = items.drop_last();
        lemma_concat_keys(init);
        let c = concat_bytes(items);
        assert(c == concat_bytes(init) + items.last());
        assert forall|i: int| 0 <= i < items.len() implies c.subrange(32 * i, 32 * i + 32)
            == #[trigger] items[i] by {
            if i < items.len() - 1 {
                assert(c.subrange(32 * i, 32 * i + 32) =~= concat_bytes(init).subrange(
                    32 * i,
                    32 * i + 32,
                ));
                assert(init[i] == items[i]);
            } else {
                assert(c.subrange(32 * i, 32 * i + 32) =~= items.last());
            }
        }
    }
}

/// A ping built from its fields decodes to a valid ping with those fields.
pub proof fn law_ping_roundtrip(from: Seq<u8>, token: Seq<u8>, signature: Seq<u8>)
    requires
        from.len() == 32,
        token.len() == 32,
        signature.len() == 64,
    ensures
        spec_gossip_effects(spec_ping_bytes(from, token, signature)) == (SpecGossipEffects {
            valid: true,
            msg: Some(Some(SpecMsg::Ping(SpecPing { from, token, signature }))),
        }),
{
    reveal(spec_parse_protocol);
    let s = spec_ping_bytes(from, token, signature);
    lemma_u32_prefix(TAG_PING, from + token + signature);
    assert(s =~= le_bytes_u32(TAG_PING) + (from + token + signature));
    assert(s.subrange(4, 36) =~= from);
    assert(s.subrange(36, 68) =~= token);
    assert(s.subrange(68, 132) =~= signature);
    assert(spec_parse_protocol(s, 0) == Some(
        (SpecProtocol::PingMessage(SpecPing { from, token, signature }), 132int),
    ));
}

/// A pong built from its fields decodes to a valid pong with those fields.
pub proof fn law_pong_roundtrip(from: Seq<u8>, hash: Seq<u8>, signature: Seq<u8>)
    requires
        from.len() == 32,
        hash.len() == 32,
        signature.len() == 64,
    ensures
        spec_gossip_effects(spec_pong_bytes(from, hash, signature)) == (SpecGossipEffects {
            valid: true,
            msg: Some(Some(SpecMsg::Pong(SpecPong { from, hash, signature }))),
        }),
{
    reveal(spec_parse_protocol);
    let s = spec_pong_bytes(from, hash, signature);
    lemma_u32_prefix(TAG_PONG, from + hash + signature);
    assert(s =~= le_bytes_u32(TAG_PONG) + (from + hash + signature));
    assert(s.subrange(4, 36) =~= from);
    assert(s.subrange(36, 68) =~= hash);
    assert(s.subrange(68, 132) =~= signature);
    assert(spec_parse_protocol(s, 0) == Some(
        (SpecProtocol::PongMessage(SpecPong { from, hash, signature }), 132int),
    ));
}

/// A prune message built from its fields reads back as those fields.
proof fn lemma_prune_parses(
    outer_pubkey: Seq<u8>,
    pubkey: Seq<u8>,
    prunes: Seq<Seq<u8>>,
    signature: Seq<u8>,
    destination: Seq<u8>,
    wallclock: u64,
)
    requires
        outer_pubkey.len() == 32,
        pubkey.len() == 32,
        forall|i: int| 0 <= i < prunes.len() ==> (#[trigger] prunes[i]).len() == 32,
        signature.len() == 64,
        destination.len() == 32,
        spec_prune_bytes(outer_pubkey, pubkey, prunes, signature, destination, wallclock).len()
            <= PACKET_DATA_SIZE,
    ensures
        spec_parse_protocol(
            spec_prune_bytes(outer_pubkey, pubkey, prunes, signature, destination, wallclock),
            0,
        ) == Some(
            (
                SpecProtocol::PruneMessage(
                    outer_pubkey,
                    SpecPruneData { pubkey, prunes, signature, destination, wallclock },
                ),
                spec_prune_bytes(outer_pubkey, pubkey, prunes, signature, destination, wallclock).len() as int,
            ),
        ),
{
    let s = spec_prune_bytes(outer_pubkey, pubkey, prunes, signature, destination, wallclock);
    let n: nat = prunes.len();
    let k = concat_bytes(prunes);
    lemma_concat_keys(prunes);
    let after: int = 76 + 32 * (n as int);
    assert(s.len() == after + 104);
    let rest = outer_pubkey + pubkey + le_bytes_u64(n as u64) + k + signature + destination
        + le_bytes_u64(wallclock);
    assert(s =~= le_bytes_u32(TAG_PRUNE_MESSAGE) + rest);
    lemma_u32_prefix(TAG_PRUNE_MESSAGE, rest);
    assert(s.subrange(4, 36) =~= outer_pubkey);
    assert(s.subrange(36, 68) =~= pubkey);
    assert(s.subrange(68, 76) =~= le_bytes_u64(n as u64));
    lemma_u64_placed(s, 68, n as u64);
    assert(s.subrange(after, after + 64) =~= signature);
    assert(s.subrange(after + 64, after + 96) =~= destination);
    assert(s.subrange(after + 96, after + 104) =~= le_bytes_u64(wallclock));
    lemma_u64_placed(s, after + 96, wallclock);
    assert(spec_keys(s, 76, n) =~= prunes) by {
        assert forall|i: int| 0 <= i < n implies #[trigger] spec_keys(s, 76, n)[i] == prunes[i] by {
            assert(s.subrange(76 + 32 * i, 76 + 32 * i + 32) =~= k.subrange(32 * i, 32 * i + 32));
        }
    }
    let pd = SpecPruneData { pubkey, prunes, signature, destination, wallclock };
    assert(spec_parse_prune_data(s, 36) == Some((pd, after + 104)));
    assert(u32_le_at(s, 0) == TAG_PRUNE_MESSAGE);
    assert(spec_parse_protocol(s, 0) == Some(
        (SpecProtocol::PruneMessage(outer_pubkey, pd), after + 104),
    )) by {
        reveal(spec_parse_protocol);
    }
}

/// A prune message built from its fields, when it fits in a packet, is accepted
/// exactly when its outer key equals the key of its data and its wallclock is
/// below the bound, and then it carries those fields.
pub proof fn law_prune_roundtrip(
    outer_pubkey: Seq<u8>,
    pubkey: Seq<u8>,
    prunes: Seq<Seq<u8>>,
    signature: Seq<u8>,
    destination: Seq<u8>,
    wallclock: u64,
)
    requires
        outer_pubkey.len() == 32,
        pubkey.len() == 32,
        forall|i: int| 0 <= i < prunes.len() ==> (#[trigger] prunes[i]).len() == 32,
        signature.len() == 64,
        destination.len() == 32,
        spec_prune_bytes(outer_pubkey, pubkey, prunes, signature, destination, wallclock).len()
            <= PACKET_DATA_SIZE,
    ensures
        spec_gossip_effects(
            spec_prune_bytes(outer_pubkey, pubkey, prunes, signature, destination, wallclock),
        ) == if outer_pubkey == pubkey && wallclock < MAX_WALLCLOCK {
            SpecGossipEffects {
                valid: true,
                msg: Some(
                    Some(
                        SpecMsg::PruneMessage(
                            SpecGossipPruneMessage {
                                pubkey: outer_pubkey,
                                data: Some(
                                    SpecPruneData {
                                        pubkey,
                                        prunes,
                                        signature,
                                        destination,
                                        wallclock,
                                    },
                                ),
                            },
                        ),
                    ),
                ),
            }
        } else {
            spec_invalid_effects()
        },
{
    let s = spec_prune_bytes(outer_pubkey, pubkey, prunes, signature, destination, wallclock);
    lemma_prune_parses(outer_pubkey, pubkey, prunes, signature, destination, wallclock);
    let pd = SpecPruneData { pubkey, prunes, signature, destination, wallclock };
    assert(spec_decode_protocol(s) == Some(SpecProtocol::PruneMessage(outer_pubkey, pd)));
}

/// A pull request is accepted only when the value it carries is a node
/// record, and that record is what the effects record shows.
pub proof fn law_pull_request_carries_node_record(input: Seq<u8>)
    ensures
        spec_gossip_effects(input).msg matches Some(Some(SpecMsg::PullRequest(pr))) ==> (
        pr.value matches Some(v) && v.data matches Some(Some(SpecData::ContactInfo(_)))),
{
}

/// A value of a retired kind is shown in the effects record with its
/// signature and no data.
pub proof fn law_retired_values_carry_no_data(v: SpecCrdsValue)
    requires
        v.data is Retired,
    ensures
        spec_convert_crds_value(v) == (SpecGossipCrdsValue {
            signature: v.signature,
            data: Some(None),
        }),
{
}

/// The effects record carries a message exactly when it is marked valid.
pub proof fn law_effects_message_iff_valid(input: Seq<u8>)
    ensures
        spec_gossip_effects(input).valid <==> spec_gossip_effects(input).msg is Some,
        spec_gossip_effects(input).msg is Some ==> spec_gossip_effects(input).msg->0 is Some,
{
}

proof fn lemma_extend_keys(s: Seq<u8>, t: Seq<u8>, start: int, n: nat)
    requires
        0 <= start,
        start + 32 * n <= s.len(),
    ensures
        spec_keys(s + t, start, n) == spec_keys(s, start, n),
{
    lemma_extend_reads(s, t);
    assert(spec_keys(s + t, start, n) =~= spec_keys(s, start, n));
}

proof fn lemma_extend_slot_hashes(s: Seq<u8>, t: Seq<u8>, start: int, n: nat)
    requires
        0 <= start,
        start + 40 * n <= s.len(),
    ensures
        spec_slot_hashes(s + t, start, n) == spec_slot_hashes(s, start, n),
{
    lemma_extend_reads(s, t);
    assert forall|i: int| 0 <= i < n implies #[trigger] spec_slot_hashes(s + t, start, n)[i]
        == spec_slot_hashes(s, start, n)[i] by {
        assert(start + 40 * i + 40 <= start + 40 * n) by (nonlinear_arith)
            requires
                0 <= i < n,
        ;
    }
    assert(spec_slot_hashes(s + t, start, n) =~= spec_slot_hashes(s, start, n));
}

proof fn lemma_extend_crds_data(s: Seq<u8>, t: Seq<u8>, pos: int)
    requires
        spec_parse_crds_data(s, pos) is Some,
    ensures
        spec_parse_crds_data(s + t, pos) == spec_parse_crds_data(s, pos),
        spec_parse_crds_data(s, pos).unwrap().1 <= s.len(),
{
    reveal(spec_parse_crds_data);
    lemma_extend_reads(s, t);
    let p = pos + 4;
    let tag = u32_le_at(s, pos);
    if tag == crate::gossip::decode::TAG_LOWEST_SLOT {
        assert(spec_parse_lowest_slot(s + t, p) == spec_parse_lowest_slot(s, p));
    } else if tag == crate::gossip::decode::TAG_CONTACT_INFO {
        lemma_extend_contact_info(s, t, p);
    } else if tag == crate::gossip::decode::TAG_DUPLICATE_SHRED {
        lemma_extend_duplicate_shred(s, t, p);
    } else if tag == crate::gossip::decode::TAG_EPOCH_SLOTS {
        lemma_extend_epoch_slots(s, t, p);
    } else if tag == crate::gossip::decode::TAG_VOTE {
        lemma_extend_vote(s, t, p);
    } else if crate::gossip::retired::is_retired_tag(tag) {
        lemma_extend_retired(s, t, tag, p);
    } else {
        let n = u64_le_at(s, p + 72);
        let items = p + 80;
        lemma_extend_slot_hashes(s, t, items, n as nat);
        assert(spec_parse_snapshot_hashes(s + t, p) == spec_parse_snapshot_hashes(s, p));
    }
}

proof fn lemma_extend_crds_value(s: Seq<u8>, t: Seq<u8>, pos: int)
    requires
        spec_parse_crds_value(s, pos) is Some,
    ensures
        spec_parse_crds_value(s + t, pos) == spec_parse_crds_value(s, pos),
        spec_parse_crds_value(s, pos).unwrap().1 <= s.len(),
{
    lemma_extend_reads(s, t);
    lemma_extend_crds_data(s, t, pos + 64);
}

proof fn lemma_extend_crds_values(s: Seq<u8>, t: Seq<u8>, pos: int, n: nat)
    requires
        spec_parse_crds_values(s, pos, n) is Some,
    ensures
        spec_parse_crds_values(s + t, pos, n) == spec_parse_crds_values(s, pos, n),
        n > 0 ==> spec_parse_crds_values(s, pos, n).unwrap().1 <= s.len(),
    decreases n,
{
    if n > 0 {
        lemma_extend_crds_values(s, t, pos, (n - 1) as nat);
        let p = spec_parse_crds_values(s, pos, (n - 1) as nat).unwrap().1;
        lemma_extend_crds_value(s, t, p);
    }
}

/// Reading a message from `s` and from any extension of `s` gives the same
/// result, once it succeeds on `s`; it then ends within `s`.
pub proof fn lemma_extend_protocol(s: Seq<u8>, t: Seq<u8>, pos: int)
    requires
        spec_parse_protocol(s, pos) is Some,
    ensures
        spec_parse_protocol(s + t, pos) == spec_parse_protocol(s, pos),
        spec_parse_protocol(s, pos).unwrap().1 <= s.len(),
{
    reveal(spec_parse_protocol);
    lemma_extend_reads(s, t);
    let p = pos + 4;
    let tag = u32_le_at(s, pos);
    if tag == crate::gossip::decode::TAG_PULL_REQUEST {
        lemma_extend_crds_filter(s, t, p);
        let q = spec_parse_crds_filter(s, p).unwrap().1;
        lemma_extend_crds_value(s, t, q);
    } else if tag == crate::gossip::decode::TAG_PULL_RESPONSE || tag
        == crate::gossip::decode::TAG_PUSH_MESSAGE {
        let n = u64_le_at(s, p + 32);
        lemma_extend_crds_values(s, t, p + 40, n as nat);
        if n == 0 {
            assert(spec_parse_crds_values(s, p + 40, 0) == Some((Seq::<crate::gossip::protocol::SpecCrdsValue>::empty(), p + 40)));
        }
        assert(spec_parse_values_message(s + t, p) == spec_parse_values_message(s, p));
    } else if tag == TAG_PRUNE_MESSAGE {
        let q = p + 32;
        let n = u64_le_at(s, q + 32);
        lemma_extend_keys(s, t, q + 40, n as nat);
        assert(spec_parse_prune_data(s + t, q) == spec_parse_prune_data(s, q));
    } else if tag == TAG_PING {
        assert(spec_parse_ping(s + t, p) == spec_parse_ping(s, p));
    } else {
        assert(spec_parse_pong(s + t, p) == spec_parse_pong(s, p));
    }
}

/// Appending bytes to an accepted encoding makes it undecodable: a message is
/// never followed by anything.
pub proof fn law_no_trailing_bytes(s: Seq<u8>, t: Seq<u8>)
    requires
        spec_decode_protocol(s) is Some,
        t.len() > 0,
    ensures
        spec_decode_protocol(s + t) is None,
        spec_gossip_effects(s + t) == spec_invalid_effects(),
{
    if (s + t).len() <= PACKET_DATA_SIZE {
        lemma_extend_protocol(s, t, 0);
    }
}

/// No proper prefix of an accepted encoding decodes.
pub proof fn law_no_decodable_proper_prefix(s: Seq<u8>, k: int)
    requires
        spec_decode_protocol(s) is Some,
        0 <= k < s.len(),
    ensures
        spec_decode_protocol(s.subrange(0, k)) is None,
        spec_gossip_effects(s.subrange(0, k)) == spec_invalid_effects(),
{
    let p = s.subrange(0, k);
    let t = s.subrange(k, s.len() as int);
    assert(p + t =~= s);
    if spec_decode_protocol(p) is Some {
        law_no_trailing_bytes(p, t);
    }
}

/// The node record introduced by the variant index at `q` in `s` holds, in its
/// own bytes, what `ci` shows: after the index, the 32-byte key; then the
/// variable-length wallclock; then the eight-byte start time and the two-byte
/// shred version, little-endian.
pub open spec fn shows_node_record_at(s: Seq<u8>, q: int, ci: SpecGossipContactInfo) -> bool {
    &&& 0 <= q && q + 36 <= s.len()
    &&& u32_le_at(s, q) == TAG_CONTACT_INFO
    &&& ci.pubkey == s.subrange(q + 4, q + 36)
    &&& spec_varint_u64(s, q + 36) matches Some((wallclock, p))
    &&& ci.wallclock == wallclock
    &&& p + 10 <= s.len()
    &&& ci.outset == u64_le_at(s, p)
    &&& ci.shred_version == u16_le_at(s, p + 8) as u32
}

/// The values that a message shows in its effects record: those of a push
/// message or a pull response, the one value of a pull request, and none for
/// any other message.
pub open spec fn shown_values(e: SpecGossipEffects) -> Seq<SpecGossipCrdsValue> {
    match e.msg {
        Some(Some(SpecMsg::PushMessage(m))) => m.values,
        Some(Some(SpecMsg::PullResponse(m))) => m.values,
        Some(Some(SpecMsg::PullRequest(pr))) => match pr.value {
            Some(v) => seq![v],
            None => seq![],
        },
        _ => seq![],
    }
}

/// The `i`-th of `n` values read from `pos` is a value read at some position.
proof fn lemma_value_position(s: Seq<u8>, pos: int, n: nat, i: int) -> (q: int)
    requires
        spec_parse_crds_values(s, pos, n) is Some,
        0 <= i < spec_parse_crds_values(s, pos, n).unwrap().0.len(),
    ensures
        spec_parse_crds_value(s, q) is Some,
        spec_parse_crds_value(s, q).unwrap().0 == spec_parse_crds_values(s, pos, n).unwrap().0[i],
    decreases n,
{
    let prev = spec_parse_crds_values(s, pos, (n - 1) as nat).unwrap();
    if i < prev.0.len() {
        lemma_value_position(s, pos, (n - 1) as nat, i)
    } else {
        prev.1
    }
}

/// The data introduced by the variant index at `q` in `s` holds, in its own
/// bytes, what the effects entry `d` shows of it. After the four-byte index:
/// a vote has an index byte, the voter's key, then its transaction bytes
/// followed by the eight-byte wallclock; lowest-slot data has an index byte
/// (shown as zero), the key, the root and lowest slots, two deprecated list
/// lengths and the wallclock; epoch slots have an index byte then the key; a
/// duplicate-shred chunk has a two-byte index, the key, wallclock, slot, a
/// shred type byte, chunk count and chunk index bytes, then the counted chunk
/// (the shred index and type are shown as zero); snapshot hashes have the
/// key, full slot and hash, the counted incremental pairs and the wallclock;
/// and a node record is as `shows_node_record_at` says.
pub open spec fn shows_value_at(s: Seq<u8>, q: int, d: SpecData) -> bool {
    &&& 0 <= q && q + 4 <= s.len()
    &&& match d {
        SpecData::ContactInfo(ci) => shows_node_record_at(s, q, ci),
        SpecData::Vote(v) => {
            let t = q + 37;
            &&& u32_le_at(s, q) == TAG_VOTE
            &&& t + v.transaction.len() + 8 <= s.len()
            &&& v.index == s[q + 4] as u32
            &&& v.from == s.subrange(q + 5, t)
            &&& v.transaction == s.subrange(t, t + v.transaction.len())
            &&& v.wallclock == u64_le_at(s, t + v.transaction.len())
        },
        SpecData::LowestSlot(ls) => {
            &&& u32_le_at(s, q) == TAG_LOWEST_SLOT
            &&& q + 77 <= s.len()
            &&& ls.index == 0
            &&& ls.from == s.subrange(q + 5, q + 37)
            &&& ls.lowest == u64_le_at(s, q + 45)
            &&& ls.wallclock == u64_le_at(s, q + 69)
        },
        SpecData::EpochSlots(e) => {
            &&& u32_le_at(s, q) == TAG_EPOCH_SLOTS
            &&& q + 37 <= s.len()
            &&& e.index == s[q + 4] as u32
            &&& e.from == s.subrange(q + 5, q + 37)
        },
        SpecData::DuplicateShred(ds) => {
            let n = u64_le_at(s, q + 61);
            &&& u32_le_at(s, q) == TAG_DUPLICATE_SHRED
            &&& q + 69 + n <= s.len()
            &&& ds.index == u16_le_at(s, q + 4) as u32
            &&& ds.from == s.subrange(q + 6, q + 38)
            &&& ds.wallclock == u64_le_at(s, q + 38)
            &&& ds.slot == u64_le_at(s, q + 46)
            &&& ds.shred_index == 0
            &&& ds.shred_type == 0
            &&& ds.num_chunks == s[q + 59] as u32
            &&& ds.chunk_index == s[q + 60] as u32
            &&& ds.chunk == s.subrange(q + 69, q + 69 + n)
        },
        SpecData::SnapshotHashes(sh) => {
            let n = u64_le_at(s, q + 76);
            let after = q + 84 + 40 * n;
            &&& u32_le_at(s, q) == TAG_SNAPSHOT_HASHES
            &&& after + 8 <= s.len()
            &&& sh.from == s.subrange(q + 4, q + 36)
            &&& sh.full_slot == u64_le_at(s, q + 36)
            &&& sh.full_hash == s.subrange(q + 44, q + 76)
            &&& sh.incremental.len() == n
            &&& forall|k: int|
                0 <= k < n ==> #[trigger] sh.incremental[k] == (
                    u64_le_at(s, q + 84 + 40 * k),
                    s.subrange(q + 92 + 40 * k, q + 124 + 40 * k),
                )
            &&& sh.wallclock == u64_le_at(s, after)
        },
    }
}

/// The signed value at `q` in `s` holds what the effects entry `v` shows: its
/// 64-byte signature, then either data that `shows_value_at` accepts or, for
/// an entry shown without data, data of a retired kind.
pub open spec fn shows_signed_value_at(s: Seq<u8>, q: int, v: SpecGossipCrdsValue) -> bool {
    &&& 0 <= q && q + 68 <= s.len()
    &&& v.signature == s.subrange(q, q + 64)
    &&& match v.data {
        Some(Some(d)) => shows_value_at(s, q + 64, d),
        Some(None) => crate::gossip::retired::is_retired_tag(u32_le_at(s, q + 64)),
        None => false,
    }
}

/// A signed value shows in its effects entry its own signature and what its
/// own bytes hold after it.
pub proof fn law_value_fields_from_bytes(s: Seq<u8>, q: int)
    requires
        spec_parse_crds_value(s, q) is Some,
    ensures
        shows_signed_value_at(s, q, spec_convert_crds_value(spec_parse_crds_value(s, q).unwrap().0)),
{
    reveal(spec_parse_crds_data);
    let p = q + 68;
    let tag = u32_le_at(s, q + 64);
    let v = spec_parse_crds_value(s, q).unwrap().0;
    let e = spec_convert_crds_value(v);
    if tag == TAG_VOTE {
        lemma_transaction_bounds(s, p + 33);
        assert(shows_signed_value_at(s, q, e));
    } else if tag == TAG_LOWEST_SLOT {
        assert(shows_signed_value_at(s, q, e));
    } else if tag == TAG_SNAPSHOT_HASHES {
        assert(shows_signed_value_at(s, q, e));
    } else if tag == TAG_CONTACT_INFO {
        assert(shows_signed_value_at(s, q, e));
    } else if tag == TAG_DUPLICATE_SHRED {
        assert(shows_signed_value_at(s, q, e));
    } else if tag == TAG_EPOCH_SLOTS {
        assert(shows_signed_value_at(s, q, e));
    } else {
        assert(v.data is Retired);
        assert(shows_signed_value_at(s, q, e));
    }
}

/// Every value that an accepted datagram carries (in a push message, a pull
/// response or a pull request) is shown in the effects record with what its
/// own bytes in the datagram hold: its signature, and a node record with its
/// key, wallclock, start time and shred version; a vote with its index, voter,
/// transaction bytes and wallclock; and so on for each kind, as
/// `shows_value_at` says; a value of a retired kind is shown without data.
pub proof fn law_values_shown_from_bytes(input: Seq<u8>, i: int)
    requires
        0 <= i < shown_values(spec_gossip_effects(input)).len(),
    ensures
        exists|q: int| #[trigger]
            shows_signed_value_at(input, q, shown_values(spec_gossip_effects(input))[i]),
{
    reveal(spec_parse_protocol);
    let p = spec_decode_protocol(input).unwrap();
    let tag = u32_le_at(input, 0);
    let v = shown_values(spec_gossip_effects(input))[i];
    if tag == TAG_PULL_RESPONSE || tag == TAG_PUSH_MESSAGE {
        let q = lemma_value_position(input, 44, u64_le_at(input, 36) as nat, i);
        law_value_fields_from_bytes(input, q);
        assert(shows_signed_value_at(input, q, v));
    } else {
        let (f, q) = spec_parse_crds_filter(input, 4).unwrap();
        law_value_fields_from_bytes(input, q);
        assert(shows_signed_value_at(input, q, v));
    }
}

/// An accepted push message or pull response shows as its sender the 32
/// bytes that follow its four-byte variant index.
pub proof fn law_values_message_sender_from_bytes(input: Seq<u8>)
    ensures
        spec_gossip_effects(input).msg matches Some(Some(SpecMsg::PushMessage(m))) ==> m.pubkey
            == input.subrange(4, 36),
        spec_gossip_effects(input).msg matches Some(Some(SpecMsg::PullResponse(m))) ==> m.pubkey
            == input.subrange(4, 36),
{
    reveal(spec_parse_protocol);
}

} // verus!
