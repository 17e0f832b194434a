//! Semantic checks that a decoded gossip message must pass.
use vstd::prelude::*;
use crate::gossip::protocol::{
    CrdsData, CrdsValue, Protocol, SpecCrdsData, SpecCrdsValue, SpecProtocol, crds_values_view,
    slot_hashes_view,
};
use crate::gossip::{MAX_SLOT, MAX_WALLCLOCK};
use crate::gossip::duplicate_shred::MAX_DUPLICATE_SHREDS;
use crate::gossip::epoch_slots::{sanitize_epoch_slots, spec_sanitize_epoch_slots};
use crate::gossip::vote::{sanitize_vote, spec_sanitize_vote};
use crate::gossip::retired::{sanitize_retired, spec_sanitize_retired};

verus! {

/// Whether the data of a gossip value is within bounds.
pub open spec fn spec_sanitize_crds_data(d: SpecCrdsData) -> bool {
    match d {
        SpecCrdsData::ContactInfo(ci) => ci.wallclock < MAX_WALLCLOCK,
        SpecCrdsData::EpochSlots(ix, e) => spec_sanitize_epoch_slots(ix, e),
        SpecCrdsData::Vote(ix, v) => spec_sanitize_vote(ix, v),
        SpecCrdsData::Retired(r) => spec_sanitize_retired(r),
        SpecCrdsData::DuplicateShred(ix, d) => {
            &&& ix < MAX_DUPLICATE_SHREDS
            &&& d.wallclock < MAX_WALLCLOCK
            &&& d.chunk_index < d.num_chunks
        },
        SpecCrdsData::LowestSlot(ix, ls) => {
            &&& ix < 1
            &&& ls.wallclock < MAX_WALLCLOCK
            &&& ls.lowest < MAX_SLOT
            &&& ls.root == 0
        },
        SpecCrdsData::SnapshotHashes(sh) => {
            &&& sh.wallclock < MAX_WALLCLOCK
            &&& sh.full_slot < MAX_SLOT
            &&& forall|i: int|
                0 <= i < sh.incremental.len() ==> #[trigger] sh.incremental[i].0 < MAX_SLOT
                    && sh.full_slot < sh.incremental[i].0
        },
    }
}

/// Whether every value of a list is within bounds.
pub open spec fn spec_sanitize_crds_values(vals: Seq<SpecCrdsValue>) -> bool {
    forall|i: int| 0 <= i < vals.len() ==> spec_sanitize_crds_data(#[trigger] vals[i].data)
}

/// Whether a decoded message is acceptable.
pub open spec fn spec_sanitize_protocol(p: SpecProtocol) -> bool {
    match p {
        SpecProtocol::PullRequest(f, v) => {
            &&& f.filter.len != 0
            &&& v.data is ContactInfo
            &&& spec_sanitize_crds_data(v.data)
        },
        SpecProtocol::PullResponse(_, vals) => spec_sanitize_crds_values(vals),
        SpecProtocol::PushMessage(_, vals) => spec_sanitize_crds_values(vals),
        SpecProtocol::PruneMessage(from, pd) => from == pd.pubkey && pd.wallclock < MAX_WALLCLOCK,
        SpecProtocol::PingMessage(_) => true,
        SpecProtocol::PongMessage(_) => true,
    }
}

/// Compares two byte strings.
pub fn bytes_eq(a: &[u8], b: &[u8]) -> (r: bool)
    ensures
        r == (a@ == b@),
{
    if a.len() != b.len() {
        return false;
    }
    let mut i: usize = 0;
    while i < a.len()
        invariant
            a@.len() == b@.len(),
            i <= a@.len(),
            forall|j: int| 0 <= j < i ==> a@[j] == b@[j],
        decreases a@.len() - i,
    {
        if a[i] != b[i] {
            return false;
        }
        i = i + 1;
    }
    assert(a@ =~= b@);
    true
}

pub fn sanitize_crds_data(d: &CrdsData) -> (r: bool)
    ensures
        r == spec_sanitize_crds_data(d@),
{
    match d {
        CrdsData::ContactInfo(ci) => ci.wallclock < MAX_WALLCLOCK,
        CrdsData::EpochSlots(ix, e) => sanitize_epoch_slots(*ix, e),
        CrdsData::Vote(ix, v) => sanitize_vote(*ix, v),
        CrdsData::Retired(r) => sanitize_retired(r),
        CrdsData::DuplicateShred(ix, d) => *ix < MAX_DUPLICATE_SHREDS && d.wallclock < MAX_WALLCLOCK
            && d.chunk_index < d.num_chunks,
        CrdsData::LowestSlot(ix, ls) => *ix < 1 && ls.wallclock < MAX_WALLCLOCK && ls.lowest
            < MAX_SLOT && ls.root == 0,
        CrdsData::SnapshotHashes(sh) => {
            if sh.wallclock >= MAX_WALLCLOCK || sh.full_slot >= MAX_SLOT {
                return false;
            }
            let mut i: usize = 0;
            while i < sh.incremental.len()
                invariant
                    d@ == SpecCrdsData::SnapshotHashes(sh@),
                    i <= sh.incremental@.len(),
                    forall|j: int|
                        0 <= j < i ==> #[trigger] sh.incremental@[j].0 < MAX_SLOT && sh.full_slot
                            < sh.incremental@[j].0,
                decreases sh.incremental@.len() - i,
            {
                let slot = sh.incremental[i].0;
                if slot >= MAX_SLOT || sh.full_slot >= slot {
                    proof {
                        let m = sh@;
                        assert(m.incremental[i as int].0 == slot);
                        assert(d@ == SpecCrdsData::SnapshotHashes(m));
                    }
                    return false;
                }
                i = i + 1;
            }
            true
        },
    }
}

pub fn sanitize_crds_values(vals: &Vec<CrdsValue>) -> (r: bool)
    ensures
        r == spec_sanitize_crds_values(crds_values_view(vals@)),
{
    let mut i: usize = 0;
    while i < vals.len()
        invariant
            i <= vals@.len(),
            forall|j: int| 0 <= j < i ==> spec_sanitize_crds_data(#[trigger] vals@[j]@.data),
        decreases vals@.len() - i,
    {
        if !sanitize_crds_data(&vals[i].data) {
            assert(crds_values_view(vals@)[i as int] == vals@[i as int]@);
            assert(!spec_sanitize_crds_data(crds_values_view(vals@)[i as int].data));
            return false;
        }
        i = i + 1;
    }
    assert forall|j: int| 0 <= j < crds_values_view(vals@).len() implies spec_sanitize_crds_data(
        #[trigger] crds_values_view(vals@)[j].data,
    ) by {
        assert(crds_values_view(vals@)[j] == vals@[j]@);
    }
    true
}

/// Whether a decoded message is acceptable.
pub fn sanitize_protocol(p: &Protocol) -> (r: bool)
    ensures
        r == spec_sanitize_protocol(p@),
{
    match p {
        Protocol::PullRequest(f, v) => f.filter.len != 0 && matches!(v.data, CrdsData::ContactInfo(_))
            && sanitize_crds_data(&v.data),
        Protocol::PullResponse(_, vals) => sanitize_crds_values(vals),
        Protocol::PushMessage(_, vals) => sanitize_crds_values(vals),
        Protocol::PruneMessage(from, pd) => bytes_eq(from.as_slice(), pd.pubkey.as_slice())
            && pd.wallclock < MAX_WALLCLOCK,
        Protocol::PingMessage(_) => true,
        Protocol::PongMessage(_) => true,
    }
}

} // verus!
