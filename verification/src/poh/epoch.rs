//! Activation slots of the features that the shred producer must know about:
//! the first slot of the epoch after the one in which a feature was activated.
use vstd::prelude::*;
use vstd::arithmetic::power2::pow2;
use solana_epoch_schedule::EpochSchedule;

verus! {

/// Slots in the shortest warmup epoch.
pub const MINIMUM_SLOTS_PER_EPOCH: u64 = 32;

/// Slot value meaning that a feature is not active.
pub const NOT_ACTIVATED: u64 = u64::MAX;

/// The parameters of an epoch schedule.
#[derive(Clone, Copy, Debug, PartialEq, Eq, Structural)]
pub struct EpochScheduleFields {
    pub slots_per_epoch: u64,
    pub leader_schedule_slot_offset: u64,
    pub warmup: bool,
    pub first_normal_epoch: u64,
    pub first_normal_slot: u64,
}

/// An integer clamped to `u64`.
pub open spec fn saturate(x: int) -> u64 {
    if x > u64::MAX {
        u64::MAX
    } else if x < 0 {
        0
    } else {
        x as u64
    }
}

/// The number of doublings of 1 needed to reach at least `x`.
pub open spec fn ceil_log2(x: nat) -> nat
    decreases x,
{
    if x <= 1 {
        0
    } else {
        1 + ceil_log2(((x + 1) / 2) as nat)
    }
}

/// Whether the epoch of `slot` can be computed: a warmup slot must leave room
/// to round `slot + 33` up to a power of two within `u64`.
pub open spec fn epoch_computable(s: EpochScheduleFields, slot: u64) -> bool {
    slot < s.first_normal_slot ==> slot + 33 <= 0x8000_0000_0000_0000
}

/// The epoch of a slot: during warmup, epoch `e` holds the slots from
/// `32 * (2^e - 1)` up to `32 * (2^(e+1) - 1)`, so the epoch is
/// `ceil_log2(slot + 33) - 6`; afterwards the first normal epoch plus the
/// whole normal epochs since the first normal slot (none when an epoch has no
/// slots), saturating.
pub open spec fn spec_epoch_of_slot(s: EpochScheduleFields, slot: u64) -> u64 {
    if slot < s.first_normal_slot {
        (ceil_log2((slot + 33) as nat) - 6) as u64
    } else {
        saturate(
            s.first_normal_epoch + if s.slots_per_epoch == 0 {
                0
            } else {
                (slot - s.first_normal_slot) / (s.slots_per_epoch as int)
            },
        )
    }
}

/// The first slot of an epoch: during warmup, 32 times one less than two to
/// the (32-bit truncated) epoch; afterwards the first normal slot plus a whole
/// number of normal epochs; every operation saturating.
pub open spec fn spec_first_slot_in_epoch(s: EpochScheduleFields, epoch: u64) -> u64 {
    if epoch <= s.first_normal_epoch {
        let e = epoch as u32;
        let p: u64 = if e >= 64 {
            u64::MAX
        } else {
            pow2(e as nat) as u64
        };
        saturate((p - 1) * MINIMUM_SLOTS_PER_EPOCH)
    } else {
        saturate((epoch - s.first_normal_epoch) * s.slots_per_epoch as int + s.first_normal_slot)
    }
}

/// `EpochSchedule::get_epoch`: the epoch of a slot. During warmup it rounds
/// `slot + 33` up to a power of two, which overflows past `2^63`; the
/// `requires` leaves those slots out.
#[verifier::external_body]
fn get_epoch(s: &EpochScheduleFields, slot: u64) -> (e: u64)
    requires
        epoch_computable(*s, slot),
    ensures
        e == spec_epoch_of_slot(*s, slot),
{
    EpochSchedule {
        slots_per_epoch: s.slots_per_epoch,
        leader_schedule_slot_offset: s.leader_schedule_slot_offset,
        warmup: s.warmup,
        first_normal_epoch: s.first_normal_epoch,
        first_normal_slot: s.first_normal_slot,
    }.get_epoch(slot)
}

/// `EpochSchedule::get_first_slot_in_epoch`: the first slot of an epoch, with
/// every operation saturating.
#[verifier::external_body]
fn get_first_slot_in_epoch(s: &EpochScheduleFields, epoch: u64) -> (slot: u64)
    ensures
        slot == spec_first_slot_in_epoch(*s, epoch),
{
    EpochSchedule {
        slots_per_epoch: s.slots_per_epoch,
        leader_schedule_slot_offset: s.leader_schedule_slot_offset,
        warmup: s.warmup,
        first_normal_epoch: s.first_normal_epoch,
        first_normal_slot: s.first_normal_slot,
    }.get_first_slot_in_epoch(epoch)
}

/// The slot from which the shred producer applies a feature: none when it is
/// not active, else the first slot of the epoch after its activation epoch.
pub open spec fn spec_feature_activation_slot(s: EpochScheduleFields, activated: Option<u64>) -> u64 {
    match activated {
        None => NOT_ACTIVATED,
        Some(slot) => spec_first_slot_in_epoch(s, (spec_epoch_of_slot(s, slot) + 1) as u64),
    }
}

/// Whether the activation slot of a feature can be computed: its epoch can be
/// computed and has a successor.
pub open spec fn activation_computable(s: EpochScheduleFields, activated: Option<u64>) -> bool {
    match activated {
        Some(slot) => epoch_computable(s, slot) && spec_epoch_of_slot(s, slot) < u64::MAX,
        None => true,
    }
}

/// The slot from which the shred producer applies a feature activated at
/// `activated` (if at all); the activation epoch must be computable and have a
/// successor.
pub fn feature_activation_slot(s: &EpochScheduleFields, activated: Option<u64>) -> (r: u64)
    requires
        activation_computable(*s, activated),
    ensures
        r == spec_feature_activation_slot(*s, activated),
{
    match activated {
        None => NOT_ACTIVATED,
        Some(slot) => {
            let epoch = get_epoch(s, slot);
            get_first_slot_in_epoch(s, epoch + 1)
        },
    }
}

/// The activation slots of a list of features, or `None` when the activation
/// slot of one of them cannot be computed.
pub fn features_activation_slots(s: &EpochScheduleFields, activated: &[Option<u64>]) -> (r: Option<
    Vec<u64>,
>)
    ensures
        match r {
            Some(v) => v@.len() == activated@.len() && forall|i: int|
                0 <= i < activated@.len() ==> #[trigger] v@[i] == spec_feature_activation_slot(
                    *s,
                    activated@[i],
                ),
            None => exists|i: int|
                0 <= i < activated@.len() && !activation_computable(*s, #[trigger] activated@[i]),
        },
{
    let mut out: Vec<u64> = Vec::new();
    let mut i: usize = 0;
    while i < activated.len()
        invariant
            i <= activated@.len(),
            out@.len() == i,
            forall|j: int|
                0 <= j < i ==> #[trigger] out@[j] == spec_feature_activation_slot(*s, activated@[j]),
        decreases activated@.len() - i,
    {
        let a = activated[i];
        match a {
            Some(slot) => {
                if slot < s.first_normal_slot && slot > 0x8000_0000_0000_0000 - 33 {
                    assert(!activation_computable(*s, activated@[i as int]));
                    return None;
                }
                let epoch = get_epoch(s, slot);
                if epoch == u64::MAX {
                    assert(!activation_computable(*s, activated@[i as int]));
                    return None;
                }
            },
            None => {},
        }
        out.push(feature_activation_slot(s, a));
        i = i + 1;
    }
    Some(out)
}

} // verus!
