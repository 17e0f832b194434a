//! The effects record that conformance fixtures compare, with its model.
use vstd::prelude::*;
use crate::gossip::gossip_crds_data::{Data, SpecData};
use crate::gossip::gossip_msg::{Msg, SpecMsg};
use crate::gossip::protocol::{
    SpecPing, SpecPong, SpecPruneData, SpecSnapshotHashes, bytes_seq_view,
};

verus! {

/// Model of a Bloom filter in the effects record: its keys, the bytes of its
/// bit vector, and its count of set bits.
pub struct SpecGossipBloom {
    pub keys: Seq<u64>,
    pub bits: Seq<u8>,
    pub num_bits_set: u64,
}

/// Model of a pull-request filter in the effects record.
pub struct SpecGossipCrdsFilter {
    pub filter: Option<SpecGossipBloom>,
    pub mask: u64,
    pub mask_bits: u32,
}

/// Model of a pull request in the effects record.
pub struct SpecGossipPullRequest {
    pub filter: Option<SpecGossipCrdsFilter>,
    pub value: Option<SpecGossipCrdsValue>,
}

/// Model of a node record in the effects record.
pub struct SpecGossipContactInfo {
    pub pubkey: Seq<u8>,
    pub wallclock: u64,
    pub outset: u64,
    pub shred_version: u32,
}

/// Model of a duplicate-proof chunk in the effects record.
pub struct SpecGossipDuplicateShred {
    pub index: u32,
    pub from: Seq<u8>,
    pub wallclock: u64,
    pub slot: u64,
    pub shred_index: u32,
    pub shred_type: u32,
    pub num_chunks: u32,
    pub chunk_index: u32,
    pub chunk: Seq<u8>,
}

/// Model of a vote in the effects record: its index, voter, wallclock and
/// the encoding of its transaction.
pub struct SpecGossipVote {
    pub index: u32,
    pub from: Seq<u8>,
    pub wallclock: u64,
    pub transaction: Seq<u8>,
}

/// Model of an epoch-slots record in the effects record.
pub struct SpecGossipEpochSlots {
    pub index: u32,
    pub from: Seq<u8>,
    pub wallclock: u64,
}

/// Model of a lowest-slot record in the effects record.
pub struct SpecGossipLowestSlot {
    pub index: u32,
    pub from: Seq<u8>,
    pub lowest: u64,
    pub wallclock: u64,
}

/// Model of a gossip value in the effects record.
pub struct SpecGossipCrdsValue {
    pub signature: Seq<u8>,
    pub data: Option<Option<SpecData>>,
}

/// Model of a pull response or a push message in the effects record.
pub struct SpecGossipValuesMessage {
    pub pubkey: Seq<u8>,
    pub values: Seq<SpecGossipCrdsValue>,
}

/// Model of a prune message in the effects record.
pub struct SpecGossipPruneMessage {
    pub pubkey: Seq<u8>,
    pub data: Option<SpecPruneData>,
}

/// Model of the effects record.
pub struct SpecGossipEffects {
    pub valid: bool,
    pub msg: Option<Option<SpecMsg>>,
}

#[derive(Debug)]
pub struct GossipEffects {
    pub valid: bool,
    pub msg: Option<GossipMsg>,
}

#[derive(Debug)]
pub struct GossipMsg {
    pub msg: Option<Msg>,
}

#[derive(Debug)]
pub struct GossipPing {
    pub from: Vec<u8>,
    pub token: Vec<u8>,
    pub signature: Vec<u8>,
}

#[derive(Debug)]
pub struct GossipPong {
    pub from: Vec<u8>,
    pub hash: Vec<u8>,
    pub signature: Vec<u8>,
}

#[derive(Debug)]
pub struct GossipBloom {
    pub keys: Vec<u64>,
    pub bits: Vec<u8>,
    pub num_bits_set: u64,
}

#[derive(Debug)]
pub struct GossipCrdsFilter {
    pub filter: Option<GossipBloom>,
    pub mask: u64,
    pub mask_bits: u32,
}

#[derive(Debug)]
pub struct GossipPullRequest {
    pub filter: Option<GossipCrdsFilter>,
    pub value: Option<GossipCrdsValue>,
}

#[derive(Debug)]
pub struct GossipPullResponse {
    pub pubkey: Vec<u8>,
    pub values: Vec<GossipCrdsValue>,
}

#[derive(Debug)]
pub struct GossipPushMessage {
    pub pubkey: Vec<u8>,
    pub values: Vec<GossipCrdsValue>,
}

#[derive(Debug)]
pub struct GossipPruneMessage {
    pub pubkey: Vec<u8>,
    pub data: Option<GossipPruneData>,
}

#[derive(Debug)]
pub struct GossipPruneData {
    pub pubkey: Vec<u8>,
    pub prunes: Vec<Vec<u8>>,
    pub signature: Vec<u8>,
    pub destination: Vec<u8>,
    pub wallclock: u64,
}

#[derive(Debug)]
pub struct GossipCrdsValue {
    pub signature: Vec<u8>,
    pub data: Option<GossipCrdsData>,
}

#[derive(Debug)]
pub struct GossipCrdsData {
    pub data: Option<Data>,
}

#[derive(Debug)]
pub struct GossipContactInfo {
    pub pubkey: Vec<u8>,
    pub wallclock: u64,
    pub outset: u64,
    pub shred_version: u32,
}

#[derive(Debug)]
pub struct GossipDuplicateShred {
    pub index: u32,
    pub from: Vec<u8>,
    pub wallclock: u64,
    pub slot: u64,
    pub shred_index: u32,
    pub shred_type: u32,
    pub num_chunks: u32,
    pub chunk_index: u32,
    pub chunk: Vec<u8>,
}

#[derive(Debug)]
pub struct GossipVote {
    pub index: u32,
    pub from: Vec<u8>,
    pub wallclock: u64,
    pub transaction: Vec<u8>,
}

#[derive(Debug)]
pub struct GossipEpochSlots {
    pub index: u32,
    pub from: Vec<u8>,
    pub wallclock: u64,
}

#[derive(Debug)]
pub struct GossipLowestSlot {
    pub index: u32,
    pub from: Vec<u8>,
    pub lowest: u64,
    pub wallclock: u64,
}

#[derive(Debug)]
pub struct GossipSnapshotHashes {
    pub from: Vec<u8>,
    pub full_slot: u64,
    pub full_hash: Vec<u8>,
    pub incremental: Vec<GossipIncrementalHash>,
    pub wallclock: u64,
}

#[derive(Debug)]
pub struct GossipIncrementalHash {
    pub slot: u64,
    pub hash: Vec<u8>,
}

/// The model of a list of gossip values of the effects record.
pub open spec fn gossip_values_view(v: Seq<GossipCrdsValue>) -> Seq<SpecGossipCrdsValue> {
    v.map_values(|c: GossipCrdsValue| c@)
}

/// The model of a list of incremental hashes of the effects record.
pub open spec fn incremental_view(v: Seq<GossipIncrementalHash>) -> Seq<(u64, Seq<u8>)> {
    v.map_values(|h: GossipIncrementalHash| h@)
}

impl View for GossipEffects {
    type V = SpecGossipEffects;

    open spec fn view(&self) -> SpecGossipEffects {
        SpecGossipEffects {
            valid: self.valid,
            msg: match self.msg {
                Some(m) => Some(m@),
                None => None,
            },
        }
    }
}

impl View for GossipMsg {
    type V = Option<SpecMsg>;

    open spec fn view(&self) -> Option<SpecMsg> {
        match self.msg {
            Some(m) => Some(m@),
            None => None,
        }
    }
}

impl View for GossipPing {
    type V = SpecPing;

    open spec fn view(&self) -> SpecPing {
        SpecPing { from: self.from@, token: self.token@, signature: self.signature@ }
    }
}

impl View for GossipPong {
    type V = SpecPong;

    open spec fn view(&self) -> SpecPong {
        SpecPong { from: self.from@, hash: self.hash@, signature: self.signature@ }
    }
}

impl View for GossipBloom {
    type V = SpecGossipBloom;

    open spec fn view(&self) -> SpecGossipBloom {
        SpecGossipBloom { keys: self.keys@, bits: self.bits@, num_bits_set: self.num_bits_set }
    }
}

impl View for GossipCrdsFilter {
    type V = SpecGossipCrdsFilter;

    open spec fn view(&self) -> SpecGossipCrdsFilter {
        SpecGossipCrdsFilter {
            filter: match self.filter {
                Some(b) => Some(b@),
                None => None,
            },
            mask: self.mask,
            mask_bits: self.mask_bits,
        }
    }
}

impl View for GossipPullRequest {
    type V = SpecGossipPullRequest;

    open spec fn view(&self) -> SpecGossipPullRequest {
        SpecGossipPullRequest {
            filter: match self.filter {
                Some(f) => Some(f@),
                None => None,
            },
            value: match self.value {
                Some(v) => Some(v@),
                None => None,
            },
        }
    }
}

impl View for GossipPullResponse {
    type V = SpecGossipValuesMessage;

    open spec fn view(&self) -> SpecGossipValuesMessage {
        SpecGossipValuesMessage { pubkey: self.pubkey@, values: gossip_values_view(self.values@) }
    }
}

impl View for GossipPushMessage {
    type V = SpecGossipValuesMessage;

    open spec fn view(&self) -> SpecGossipValuesMessage {
        SpecGossipValuesMessage { pubkey: self.pubkey@, values: gossip_values_view(self.values@) }
    }
}

impl View for GossipPruneMessage {
    type V = SpecGossipPruneMessage;

    open spec fn view(&self) -> SpecGossipPruneMessage {
        SpecGossipPruneMessage {
            pubkey: self.pubkey@,
            data: match self.data {
                Some(d) => Some(d@),
                None => None,
            },
        }
    }
}

impl View for GossipPruneData {
    type V = SpecPruneData;

    open spec fn view(&self) -> SpecPruneData {
        SpecPruneData {
            pubkey: self.pubkey@,
            prunes: bytes_seq_view(self.prunes@),
            signature: self.signature@,
            destination: self.destination@,
            wallclock: self.wallclock,
        }
    }
}

impl View for GossipCrdsValue {
    type V = SpecGossipCrdsValue;

    open spec fn view(&self) -> SpecGossipCrdsValue {
        SpecGossipCrdsValue {
            signature: self.signature@,
            data: match self.data {
                Some(d) => Some(d@),
                None => None,
            },
        }
    }
}

impl View for GossipCrdsData {
    type V = Option<SpecData>;

    open spec fn view(&self) -> Option<SpecData> {
        match self.data {
            Some(d) => Some(d@),
            None => None,
        }
    }
}

impl View for GossipContactInfo {
    type V = SpecGossipContactInfo;

    open spec fn view(&self) -> SpecGossipContactInfo {
        SpecGossipContactInfo {
            pubkey: self.pubkey@,
            wallclock: self.wallclock,
            outset: self.outset,
            shred_version: self.shred_version,
        }
    }
}

impl View for GossipDuplicateShred {
    type V = SpecGossipDuplicateShred;

    open spec fn view(&self) -> SpecGossipDuplicateShred {
        SpecGossipDuplicateShred {
            index: self.index,
            from: self.from@,
            wallclock: self.wallclock,
            slot: self.slot,
            shred_index: self.shred_index,
            shred_type: self.shred_type,
            num_chunks: self.num_chunks,
            chunk_index: self.chunk_index,
            chunk: self.chunk@,
        }
    }
}

impl View for GossipVote {
    type V = SpecGossipVote;

    open spec fn view(&self) -> SpecGossipVote {
        SpecGossipVote {
            index: self.index,
            from: self.from@,
            wallclock: self.wallclock,
            transaction: self.transaction@,
        }
    }
}

impl View for GossipEpochSlots {
    type V = SpecGossipEpochSlots;

    open spec fn view(&self) -> SpecGossipEpochSlots {
        SpecGossipEpochSlots { index: self.index, from: self.from@, wallclock: self.wallclock }
    }
}

impl View for GossipLowestSlot {
    type V = SpecGossipLowestSlot;

    open spec fn view(&self) -> SpecGossipLowestSlot {
        SpecGossipLowestSlot {
            index: self.index,
            from: self.from@,
            lowest: self.lowest,
            wallclock: self.wallclock,
        }
    }
}

impl View for GossipSnapshotHashes {
    type V = SpecSnapshotHashes;

    open spec fn view(&self) -> SpecSnapshotHashes {
        SpecSnapshotHashes {
            from: self.from@,
            full_slot: self.full_slot,
            full_hash: self.full_hash@,
            incremental: incremental_view(self.incremental@),
            wallclock: self.wallclock,
        }
    }
}

impl View for GossipIncrementalHash {
    type V = (u64, Seq<u8>);

    open spec fn view(&self) -> (u64, Seq<u8>) {
        (self.slot, self.hash@)
    }
}

} // verus!
