//! The payload choice of a gossip value in the effects record.
use vstd::prelude::*;
use crate::gossip::effects::{
    GossipContactInfo, GossipDuplicateShred, GossipEpochSlots, GossipLowestSlot,
    GossipSnapshotHashes, SpecGossipContactInfo, SpecGossipDuplicateShred, SpecGossipEpochSlots,
    SpecGossipLowestSlot, GossipVote, SpecGossipVote,
};
use crate::gossip::protocol::SpecSnapshotHashes;

verus! {

/// Model of the payload choice of a gossip value.
pub enum SpecData {
    ContactInfo(SpecGossipContactInfo),
    Vote(SpecGossipVote),
    LowestSlot(SpecGossipLowestSlot),
    EpochSlots(SpecGossipEpochSlots),
    SnapshotHashes(SpecSnapshotHashes),
    DuplicateShred(SpecGossipDuplicateShred),
}

#[derive(Debug)]
pub enum Data {
    ContactInfo(GossipContactInfo),
    Vote(GossipVote),
    LowestSlot(GossipLowestSlot),
    EpochSlots(GossipEpochSlots),
    SnapshotHashes(GossipSnapshotHashes),
    DuplicateShred(GossipDuplicateShred),
}

impl View for Data {
    type V = SpecData;

    open spec fn view(&self) -> SpecData {
        match self {
            Data::ContactInfo(ci) => SpecData::ContactInfo(ci@),
            Data::Vote(v) => SpecData::Vote(v@),
            Data::LowestSlot(ls) => SpecData::LowestSlot(ls@),
            Data::EpochSlots(e) => SpecData::EpochSlots(e@),
            Data::SnapshotHashes(sh) => SpecData::SnapshotHashes(sh@),
            Data::DuplicateShred(d) => SpecData::DuplicateShred(d@),
        }
    }
}

} // verus!
