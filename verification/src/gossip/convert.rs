//! From a decoded gossip message to the effects record.
use vstd::prelude::*;
use crate::gossip::decode::{decode_protocol, spec_decode_protocol, spec_parse_protocol, TAG_PULL_REQUEST};
use crate::wire::u32_le_at;
use crate::gossip::effects::{
    GossipBloom, GossipContactInfo, GossipCrdsData, GossipCrdsFilter, GossipCrdsValue,
    GossipDuplicateShred, GossipEffects, GossipEpochSlots, GossipVote, SpecGossipVote, GossipIncrementalHash, GossipLowestSlot, GossipMsg,
    GossipPing, GossipPong, GossipPruneData, GossipPruneMessage, GossipPullRequest,
    GossipPullResponse, GossipPushMessage, GossipSnapshotHashes, SpecGossipBloom,
    SpecGossipContactInfo, SpecGossipCrdsFilter, SpecGossipCrdsValue, SpecGossipDuplicateShred,
    SpecGossipEffects, SpecGossipEpochSlots, SpecGossipLowestSlot, SpecGossipPruneMessage, SpecGossipPullRequest,
    SpecGossipValuesMessage, gossip_values_view, incremental_view,
};
use crate::gossip::pull_request::{
    bloom_bits, spec_bloom_bits, spec_parse_crds_filter, CrdsFilter, SpecCrdsFilter,
};
use crate::gossip::gossip_crds_data::{Data, SpecData};
use crate::gossip::gossip_msg::{Msg, SpecMsg};
use crate::gossip::protocol::{
    CrdsData, CrdsValue, Ping, Pong, Protocol, PruneData, SpecCrdsData, SpecCrdsValue,
    SpecProtocol, bytes_seq_view, crds_values_view, slot_hashes_view,
};
use crate::gossip::sanitize::{sanitize_protocol, spec_sanitize_protocol};

verus! {

/// The payload of a gossip value as the effects record shows it.
pub open spec fn spec_convert_crds_data(d: SpecCrdsData) -> Option<SpecData> {
    match d {
        SpecCrdsData::ContactInfo(ci) => Some(
            SpecData::ContactInfo(
                SpecGossipContactInfo {
                    pubkey: ci.pubkey,
                    wallclock: ci.wallclock,
                    outset: ci.outset,
                    shred_version: ci.shred_version as u32,
                },
            ),
        ),
        SpecCrdsData::LowestSlot(_, ls) => Some(
            SpecData::LowestSlot(
                SpecGossipLowestSlot {
                    index: 0,
                    from: ls.from,
                    lowest: ls.lowest,
                    wallclock: ls.wallclock,
                },
            ),
        ),
        SpecCrdsData::SnapshotHashes(sh) => Some(SpecData::SnapshotHashes(sh)),
        SpecCrdsData::Retired(_) => None,
        SpecCrdsData::Vote(ix, v) => Some(
            SpecData::Vote(
                SpecGossipVote {
                    index: ix as u32,
                    from: v.from,
                    wallclock: v.wallclock,
                    transaction: v.transaction_bytes,
                },
            ),
        ),
        SpecCrdsData::EpochSlots(ix, e) => Some(
            SpecData::EpochSlots(
                SpecGossipEpochSlots { index: ix as u32, from: e.from, wallclock: e.wallclock },
            ),
        ),
        SpecCrdsData::DuplicateShred(ix, d) => Some(
            SpecData::DuplicateShred(
                SpecGossipDuplicateShred {
                    index: ix as u32,
                    from: d.from,
                    wallclock: d.wallclock,
                    slot: d.slot,
                    shred_index: 0,
                    shred_type: 0,
                    num_chunks: d.num_chunks as u32,
                    chunk_index: d.chunk_index as u32,
                    chunk: d.chunk,
                },
            ),
        ),
    }
}

/// A gossip value as the effects record shows it.
pub open spec fn spec_convert_crds_value(v: SpecCrdsValue) -> SpecGossipCrdsValue {
    SpecGossipCrdsValue { signature: v.signature, data: Some(spec_convert_crds_data(v.data)) }
}

/// A list of gossip values as the effects record shows it.
pub open spec fn spec_convert_crds_values(vals: Seq<SpecCrdsValue>) -> Seq<SpecGossipCrdsValue> {
    vals.map_values(|v: SpecCrdsValue| spec_convert_crds_value(v))
}

/// A pull-request filter as the effects record shows it.
pub open spec fn spec_convert_crds_filter(f: SpecCrdsFilter) -> SpecGossipCrdsFilter {
    SpecGossipCrdsFilter {
        filter: Some(
            SpecGossipBloom {
                keys: f.filter.keys,
                bits: spec_bloom_bits(f.filter),
                num_bits_set: f.filter.num_bits_set,
            },
        ),
        mask: f.mask,
        mask_bits: f.mask_bits,
    }
}

/// The bit vector of a pull request's filter holds no more bits than its
/// blocks can store, as every decoded filter does.
pub open spec fn spec_protocol_well_formed(p: SpecProtocol) -> bool {
    match p {
        SpecProtocol::PullRequest(f, _) => f.filter.len <= 64 * f.filter.blocks.len(),
        _ => true,
    }
}

/// Every message that decodes is well formed.
pub proof fn lemma_decoded_well_formed(s: Seq<u8>)
    requires
        spec_decode_protocol(s) is Some,
    ensures
        spec_protocol_well_formed(spec_decode_protocol(s).unwrap()),
{
    reveal(spec_parse_crds_filter);
    reveal(spec_parse_protocol);
    let tag = u32_le_at(s, 0);
    if tag == TAG_PULL_REQUEST {
        let f = spec_parse_crds_filter(s, 4).unwrap().0;
        assert(f.filter.len <= 64 * f.filter.blocks.len());
    }
}

/// A decoded message as the effects record shows it.
pub open spec fn spec_convert_protocol(p: SpecProtocol) -> SpecMsg {
    match p {
        SpecProtocol::PullRequest(f, v) => SpecMsg::PullRequest(
            SpecGossipPullRequest {
                filter: Some(spec_convert_crds_filter(f)),
                value: Some(spec_convert_crds_value(v)),
            },
        ),
        SpecProtocol::PingMessage(ping) => SpecMsg::Ping(ping),
        SpecProtocol::PongMessage(pong) => SpecMsg::Pong(pong),
        SpecProtocol::PullResponse(pk, vals) => SpecMsg::PullResponse(
            SpecGossipValuesMessage { pubkey: pk, values: spec_convert_crds_values(vals) },
        ),
        SpecProtocol::PushMessage(pk, vals) => SpecMsg::PushMessage(
            SpecGossipValuesMessage { pubkey: pk, values: spec_convert_crds_values(vals) },
        ),
        SpecProtocol::PruneMessage(pk, pd) => SpecMsg::PruneMessage(
            SpecGossipPruneMessage { pubkey: pk, data: Some(pd) },
        ),
    }
}

/// The effects record of an input that is rejected.
pub open spec fn spec_invalid_effects() -> SpecGossipEffects {
    SpecGossipEffects { valid: false, msg: None }
}

/// The effects record of a datagram: the converted message when it decodes and
/// passes the checks, and the rejection record otherwise.
pub open spec fn spec_gossip_effects(input: Seq<u8>) -> SpecGossipEffects {
    match spec_decode_protocol(input) {
        Some(p) => if spec_sanitize_protocol(p) {
            SpecGossipEffects { valid: true, msg: Some(Some(spec_convert_protocol(p))) }
        } else {
            spec_invalid_effects()
        },
        None => spec_invalid_effects(),
    }
}

/// Copies a byte string.
pub fn copy_bytes(b: &Vec<u8>) -> (out: Vec<u8>)
    ensures
        out@ == b@,
{
    vstd::slice::slice_to_vec(b.as_slice())
}

fn copy_keys(keys: &Vec<Vec<u8>>) -> (out: Vec<Vec<u8>>)
    ensures
        bytes_seq_view(out@) == bytes_seq_view(keys@),
{
    let mut out: Vec<Vec<u8>> = Vec::new();
    let mut i: usize = 0;
    while i < keys.len()
        invariant
            i <= keys@.len(),
            bytes_seq_view(out@) == bytes_seq_view(keys@.take(i as int)),
        decreases keys@.len() - i,
    {
        let k = copy_bytes(&keys[i]);
        let ghost prev = out@;
        out.push(k);
        proof {
            assert(bytes_seq_view(out@) =~= bytes_seq_view(prev).push(keys@[i as int]@));
            assert(keys@.take(i + 1) =~= keys@.take(i as int).push(keys@[i as int]));
        }
        i = i + 1;
    }
    assert(keys@.take(keys@.len() as int) =~= keys@);
    out
}

pub fn convert_ping(ping: &Ping) -> (m: Msg)
    ensures
        m@ == SpecMsg::Ping(ping@),
{
    Msg::Ping(
        GossipPing {
            from: copy_bytes(&ping.from),
            token: copy_bytes(&ping.token),
            signature: copy_bytes(&ping.signature),
        },
    )
}

pub fn convert_pong(pong: &Pong) -> (m: Msg)
    ensures
        m@ == SpecMsg::Pong(pong@),
{
    Msg::Pong(
        GossipPong {
            from: copy_bytes(&pong.from),
            hash: copy_bytes(&pong.hash),
            signature: copy_bytes(&pong.signature),
        },
    )
}

pub fn convert_crds_data(data: &CrdsData) -> (g: GossipCrdsData)
    ensures
        g@ == spec_convert_crds_data(data@),
{
    match data {
        CrdsData::ContactInfo(ci) => GossipCrdsData {
            data: Some(
                Data::ContactInfo(
                    GossipContactInfo {
                        pubkey: copy_bytes(&ci.pubkey),
                        wallclock: ci.wallclock,
                        outset: ci.outset,
                        shred_version: ci.shred_version as u32,
                    },
                ),
            ),
        },
        CrdsData::Retired(_) => GossipCrdsData { data: None },
        CrdsData::Vote(ix, v) => GossipCrdsData {
            data: Some(
                Data::Vote(
                    GossipVote {
                        index: *ix as u32,
                        from: copy_bytes(&v.from),
                        wallclock: v.wallclock,
                        transaction: copy_bytes(&v.transaction_bytes),
                    },
                ),
            ),
        },
        CrdsData::EpochSlots(ix, e) => GossipCrdsData {
            data: Some(
                Data::EpochSlots(
                    GossipEpochSlots {
                        index: *ix as u32,
                        from: copy_bytes(&e.from),
                        wallclock: e.wallclock,
                    },
                ),
            ),
        },
        CrdsData::DuplicateShred(ix, d) => GossipCrdsData {
            data: Some(
                Data::DuplicateShred(
                    GossipDuplicateShred {
                        index: *ix as u32,
                        from: copy_bytes(&d.from),
                        wallclock: d.wallclock,
                        slot: d.slot,
                        shred_index: 0,
                        shred_type: 0,
                        num_chunks: d.num_chunks as u32,
                        chunk_index: d.chunk_index as u32,
                        chunk: copy_bytes(&d.chunk),
                    },
                ),
            ),
        },
        CrdsData::LowestSlot(_, ls) => GossipCrdsData {
            data: Some(
                Data::LowestSlot(
                    GossipLowestSlot {
                        index: 0,
                        from: copy_bytes(&ls.from),
                        lowest: ls.lowest,
                        wallclock: ls.wallclock,
                    },
                ),
            ),
        },
        CrdsData::SnapshotHashes(sh) => {
            let mut incremental: Vec<GossipIncrementalHash> = Vec::new();
            let mut i: usize = 0;
            while i < sh.incremental.len()
                invariant
                    i <= sh.incremental@.len(),
                    incremental_view(incremental@) == slot_hashes_view(
                        sh.incremental@.take(i as int),
                    ),
                decreases sh.incremental@.len() - i,
            {
                let item = GossipIncrementalHash {
                    slot: sh.incremental[i].0,
                    hash: copy_bytes(&sh.incremental[i].1),
                };
                let ghost prev = incremental@;
                let ghost iv = item@;
                incremental.push(item);
                proof {
                    assert(incremental_view(incremental@) =~= incremental_view(prev).push(iv));
                    assert(sh.incremental@.take(i + 1) =~= sh.incremental@.take(i as int).push(
                        sh.incremental@[i as int],
                    ));
                    assert(slot_hashes_view(sh.incremental@.take(i + 1)) =~= slot_hashes_view(
                        sh.incremental@.take(i as int),
                    ).push(iv));
                }
                i = i + 1;
            }
            assert(sh.incremental@.take(sh.incremental@.len() as int) =~= sh.incremental@);
            GossipCrdsData {
                data: Some(
                    Data::SnapshotHashes(
                        GossipSnapshotHashes {
                            from: copy_bytes(&sh.from),
                            full_slot: sh.full_slot,
                            full_hash: copy_bytes(&sh.full_hash),
                            incremental,
                            wallclock: sh.wallclock,
                        },
                    ),
                ),
            }
        },
    }
}

pub fn convert_crds_value(value: &CrdsValue) -> (g: GossipCrdsValue)
    ensures
        g@ == spec_convert_crds_value(value@),
{
    GossipCrdsValue {
        signature: copy_bytes(&value.signature),
        data: Some(convert_crds_data(&value.data)),
    }
}

fn convert_crds_values(values: &Vec<CrdsValue>) -> (out: Vec<GossipCrdsValue>)
    ensures
        gossip_values_view(out@) == spec_convert_crds_values(crds_values_view(values@)),
{
    let mut out: Vec<GossipCrdsValue> = Vec::new();
    let mut i: usize = 0;
    while i < values.len()
        invariant
            i <= values@.len(),
            gossip_values_view(out@) == spec_convert_crds_values(
                crds_values_view(values@.take(i as int)),
            ),
        decreases values@.len() - i,
    {
        let g = convert_crds_value(&values[i]);
        let ghost prev = out@;
        let ghost gv = g@;
        out.push(g);
        proof {
            assert(gossip_values_view(out@) =~= gossip_values_view(prev).push(gv));
            assert(values@.take(i + 1) =~= values@.take(i as int).push(values@[i as int]));
            assert(spec_convert_crds_values(crds_values_view(values@.take(i + 1)))
                =~= spec_convert_crds_values(crds_values_view(values@.take(i as int))).push(gv));
        }
        i = i + 1;
    }
    assert(values@.take(values@.len() as int) =~= values@);
    out
}

pub fn convert_prune_data(pd: &PruneData) -> (g: GossipPruneData)
    ensures
        g@ == pd@,
{
    GossipPruneData {
        pubkey: copy_bytes(&pd.pubkey),
        prunes: copy_keys(&pd.prunes),
        signature: copy_bytes(&pd.signature),
        destination: copy_bytes(&pd.destination),
        wallclock: pd.wallclock,
    }
}

pub fn convert_crds_filter(filter: &CrdsFilter) -> (g: GossipCrdsFilter)
    requires
        filter.filter.len <= 64 * filter.filter.blocks@.len(),
    ensures
        g@ == spec_convert_crds_filter(filter@),
{
    GossipCrdsFilter {
        filter: Some(
            GossipBloom {
                keys: vstd::slice::slice_to_vec(filter.filter.keys.as_slice()),
                bits: bloom_bits(&filter.filter),
                num_bits_set: filter.filter.num_bits_set,
            },
        ),
        mask: filter.mask,
        mask_bits: filter.mask_bits,
    }
}

pub fn convert_protocol(proto: &Protocol) -> (m: Msg)
    requires
        spec_protocol_well_formed(proto@),
    ensures
        m@ == spec_convert_protocol(proto@),
{
    match proto {
        Protocol::PullRequest(filter, value) => Msg::PullRequest(
            GossipPullRequest {
                filter: Some(convert_crds_filter(filter)),
                value: Some(convert_crds_value(value)),
            },
        ),
        Protocol::PingMessage(ping) => convert_ping(ping),
        Protocol::PongMessage(pong) => convert_pong(pong),
        Protocol::PullResponse(pubkey, values) => Msg::PullResponse(
            GossipPullResponse { pubkey: copy_bytes(pubkey), values: convert_crds_values(values) },
        ),
        Protocol::PushMessage(pubkey, values) => Msg::PushMessage(
            GossipPushMessage { pubkey: copy_bytes(pubkey), values: convert_crds_values(values) },
        ),
        Protocol::PruneMessage(pubkey, data) => Msg::PruneMessage(
            GossipPruneMessage {
                pubkey: copy_bytes(pubkey),
                data: Some(convert_prune_data(data)),
            },
        ),
    }
}

/// Decodes a gossip datagram and reports what it holds: the message, when the
/// bytes are a well-formed message that fits a packet, with nothing after it,
/// and that passes the semantic checks; a record marked invalid otherwise.
///
/// Every kind of gossip value is decoded; a value of a retired kind is shown
/// with no data.
pub fn gossip_decode_to_effects(input: &[u8]) -> (e: GossipEffects)
    ensures
        e@ == spec_gossip_effects(input@),
{
    match decode_protocol(input) {
        Some(proto) => {
            proof {
                lemma_decoded_well_formed(input@);
            }
            if sanitize_protocol(&proto) {
                let msg = convert_protocol(&proto);
                GossipEffects { valid: true, msg: Some(GossipMsg { msg: Some(msg) }) }
            } else {
                GossipEffects { valid: false, msg: None }
            }
        },
        None => GossipEffects { valid: false, msg: None },
    }
}

/// Whether decoding `input` gives the expected verdict, with a message in the
/// effects record exactly when the verdict is valid.
pub fn check(input: &[u8], expect_valid: bool) -> (r: bool)
    ensures
        r == (spec_gossip_effects(input@).valid == expect_valid && (spec_gossip_effects(
            input@,
        ).msg is Some) == expect_valid),
{
    let effects = gossip_decode_to_effects(input);
    effects.valid == expect_valid && effects.msg.is_some() == effects.valid
}

} // verus!
