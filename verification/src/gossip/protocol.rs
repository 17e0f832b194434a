//! The decoded gossip message, and its mathematical model.
use vstd::prelude::*;
use crate::gossip::contact_info::{ContactInfo, SpecContactInfo};
use crate::gossip::duplicate_shred::{DuplicateShred, SpecDuplicateShred};
use crate::gossip::epoch_slots::{EpochSlots, SpecEpochSlots};
use crate::gossip::vote::{SpecVote, Vote};
use crate::gossip::retired::{RetiredValue, SpecRetiredValue};
use crate::gossip::pull_request::{CrdsFilter, SpecCrdsFilter};

verus! {

/// Model of a ping: sender, token and signature bytes.
pub struct SpecPing {
    pub from: Seq<u8>,
    pub token: Seq<u8>,
    pub signature: Seq<u8>,
}

/// Model of a pong: sender, hash and signature bytes.
pub struct SpecPong {
    pub from: Seq<u8>,
    pub hash: Seq<u8>,
    pub signature: Seq<u8>,
}

/// Model of the data of a prune message.
pub struct SpecPruneData {
    pub pubkey: Seq<u8>,
    pub prunes: Seq<Seq<u8>>,
    pub signature: Seq<u8>,
    pub destination: Seq<u8>,
    pub wallclock: u64,
}

/// Model of a lowest-slot record (its deprecated slot lists are always empty here).
pub struct SpecLowestSlot {
    pub from: Seq<u8>,
    pub root: u64,
    pub lowest: u64,
    pub wallclock: u64,
}

/// Model of a snapshot-hashes record.
pub struct SpecSnapshotHashes {
    pub from: Seq<u8>,
    pub full_slot: u64,
    pub full_hash: Seq<u8>,
    pub incremental: Seq<(u64, Seq<u8>)>,
    pub wallclock: u64,
}

/// Model of the data carried by a gossip value.
pub enum SpecCrdsData {
    ContactInfo(SpecContactInfo),
    LowestSlot(u8, SpecLowestSlot),
    SnapshotHashes(SpecSnapshotHashes),
    DuplicateShred(u16, SpecDuplicateShred),
    EpochSlots(u8, SpecEpochSlots),
    Vote(u8, SpecVote),
    Retired(SpecRetiredValue),
}

/// Model of a signed gossip value.
pub struct SpecCrdsValue {
    pub signature: Seq<u8>,
    pub data: SpecCrdsData,
}

/// Model of a gossip protocol message.
pub enum SpecProtocol {
    PullRequest(SpecCrdsFilter, SpecCrdsValue),
    PullResponse(Seq<u8>, Seq<SpecCrdsValue>),
    PushMessage(Seq<u8>, Seq<SpecCrdsValue>),
    PruneMessage(Seq<u8>, SpecPruneData),
    PingMessage(SpecPing),
    PongMessage(SpecPong),
}

#[derive(Debug)]
pub struct Ping {
    pub from: Vec<u8>,
    pub token: Vec<u8>,
    pub signature: Vec<u8>,
}

#[derive(Debug)]
pub struct Pong {
    pub from: Vec<u8>,
    pub hash: Vec<u8>,
    pub signature: Vec<u8>,
}

#[derive(Debug)]
pub struct PruneData {
    pub pubkey: Vec<u8>,
    pub prunes: Vec<Vec<u8>>,
    pub signature: Vec<u8>,
    pub destination: Vec<u8>,
    pub wallclock: u64,
}

#[derive(Debug)]
pub struct LowestSlot {
    pub from: Vec<u8>,
    pub root: u64,
    pub lowest: u64,
    pub wallclock: u64,
}

#[derive(Debug)]
pub struct SnapshotHashes {
    pub from: Vec<u8>,
    pub full_slot: u64,
    pub full_hash: Vec<u8>,
    pub incremental: Vec<(u64, Vec<u8>)>,
    pub wallclock: u64,
}

#[derive(Debug)]
pub enum CrdsData {
    ContactInfo(ContactInfo),
    LowestSlot(u8, LowestSlot),
    SnapshotHashes(SnapshotHashes),
    DuplicateShred(u16, DuplicateShred),
    EpochSlots(u8, EpochSlots),
    Vote(u8, Vote),
    Retired(RetiredValue),
}

#[derive(Debug)]
pub struct CrdsValue {
    pub signature: Vec<u8>,
    pub data: CrdsData,
}

#[derive(Debug)]
pub enum Protocol {
    PullRequest(CrdsFilter, CrdsValue),
    PullResponse(Vec<u8>, Vec<CrdsValue>),
    PushMessage(Vec<u8>, Vec<CrdsValue>),
    PruneMessage(Vec<u8>, PruneData),
    PingMessage(Ping),
    PongMessage(Pong),
}

/// The model of a sequence of byte vectors.
pub open spec fn bytes_seq_view(v: Seq<Vec<u8>>) -> Seq<Seq<u8>> {
    v.map_values(|b: Vec<u8>| b@)
}

/// The model of a list of `(slot, hash)` pairs.
pub open spec fn slot_hashes_view(v: Seq<(u64, Vec<u8>)>) -> Seq<(u64, Seq<u8>)> {
    v.map_values(|p: (u64, Vec<u8>)| (p.0, p.1@))
}

/// The model of a list of gossip values.
pub open spec fn crds_values_view(v: Seq<CrdsValue>) -> Seq<SpecCrdsValue> {
    v.map_values(|c: CrdsValue| c@)
}

impl View for Ping {
    type V = SpecPing;

    open spec fn view(&self) -> SpecPing {
        SpecPing { from: self.from@, token: self.token@, signature: self.signature@ }
    }
}

impl View for Pong {
    type V = SpecPong;

    open spec fn view(&self) -> SpecPong {
        SpecPong { from: self.from@, hash: self.hash@, signature: self.signature@ }
    }
}

impl View for PruneData {
    type V = SpecPruneData;

    open spec fn view(&self) -> SpecPruneData {
        SpecPruneData {
            pubkey: self.pubkey@,
            prunes: bytes_seq_view(self.prunes@),
            signature: self.signature@,
            destination: self.destination@,
            wallclock: self.wallclock,
        }
    }
}

impl View for LowestSlot {
    type V = SpecLowestSlot;

    open spec fn view(&self) -> SpecLowestSlot {
        SpecLowestSlot {
            from: self.from@,
            root: self.root,
            lowest: self.lowest,
            wallclock: self.wallclock,
        }
    }
}

impl View for SnapshotHashes {
    type V = SpecSnapshotHashes;

    open spec fn view(&self) -> SpecSnapshotHashes {
        SpecSnapshotHashes {
            from: self.from@,
            full_slot: self.full_slot,
            full_hash: self.full_hash@,
            incremental: slot_hashes_view(self.incremental@),
            wallclock: self.wallclock,
        }
    }
}

impl View for CrdsData {
    type V = SpecCrdsData;

    open spec fn view(&self) -> SpecCrdsData {
        match self {
            CrdsData::ContactInfo(ci) => SpecCrdsData::ContactInfo(ci@),
            CrdsData::LowestSlot(ix, ls) => SpecCrdsData::LowestSlot(*ix, ls@),
            CrdsData::SnapshotHashes(sh) => SpecCrdsData::SnapshotHashes(sh@),
            CrdsData::DuplicateShred(ix, d) => SpecCrdsData::DuplicateShred(*ix, d@),
            CrdsData::EpochSlots(ix, e) => SpecCrdsData::EpochSlots(*ix, e@),
            CrdsData::Vote(ix, v) => SpecCrdsData::Vote(*ix, v@),
            CrdsData::Retired(r) => SpecCrdsData::Retired(r@),
        }
    }
}

impl View for CrdsValue {
    type V = SpecCrdsValue;

    open spec fn view(&self) -> SpecCrdsValue {
        SpecCrdsValue { signature: self.signature@, data: self.data@ }
    }
}

impl View for Protocol {
    type V = SpecProtocol;

    open spec fn view(&self) -> SpecProtocol {
        match self {
            Protocol::PullRequest(f, v) => SpecProtocol::PullRequest(f@, v@),
            Protocol::PullResponse(pk, vals) => SpecProtocol::PullResponse(
                pk@,
                crds_values_view(vals@),
            ),
            Protocol::PushMessage(pk, vals) => SpecProtocol::PushMessage(
                pk@,
                crds_values_view(vals@),
            ),
            Protocol::PruneMessage(pk, pd) => SpecProtocol::PruneMessage(pk@, pd@),
            Protocol::PingMessage(p) => SpecProtocol::PingMessage(p@),
            Protocol::PongMessage(p) => SpecProtocol::PongMessage(p@),
        }
    }
}

} // verus!
