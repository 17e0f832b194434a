//! State kept beside the tick-producing tile, and the values it derives.
use vstd::prelude::*;

verus! {

/// Deadline value meaning that no deadline was handed over for the next block.
pub const NO_BLOCK_DEADLINE: u64 = u64::MAX;

/// Whether this node has reached one of its leader slots.
#[derive(Clone, Copy, Debug, PartialEq, Eq, Structural)]
pub enum PohLeaderStatus {
    NotReached,
    Reached { poh_slot: u64, parent_slot: u64 },
}

/// Why a block could not be completed.
#[derive(Clone, Copy, Debug, PartialEq, Eq, Structural)]
pub enum PohRecorderError {
    MaxHeightReached,
    ChannelDisconnected,
    BankFreezeTimeout(u64),
}

/// What the recorder shares about leadership: whether a leader bank is set,
/// the tick height, the first tick height of the next leader slot, and the
/// range of the next leader slots.
#[derive(Clone, Copy, Debug, PartialEq, Eq)]
pub struct LeaderState {
    pub has_bank: bool,
    pub tick_height: u64,
    pub leader_first_tick_height: Option<u64>,
    pub next_leader_slot: Option<(u64, u64)>,
}

/// What the recorder keeps on this side of the tile.
#[derive(Debug)]
pub struct PohRecorderState {
    pub ticks_per_slot: u64,
    /// Whether the tile has been switched to alpenglow.
    pub is_alpenglow_enabled: bool,
    /// Nanoseconds left until the next opened block must end, or `NO_BLOCK_DEADLINE`.
    pub alpenglow_block_deadline_ns: u64,
    /// Identity of the bank the tile was last reset onto.
    pub start_bank_id: u64,
    /// The shared leader state.
    pub leader_state: LeaderState,
}

/// What the tile is initialized with.
#[derive(Clone, Copy, Debug, PartialEq, Eq, Structural)]
pub struct InitParams {
    pub hashcnt_per_tick: u64,
    pub ticks_per_slot: u64,
    pub tick_height: u64,
    /// Whether the tile is handed a signal to wake replay; without one it gets
    /// none (a null handle).
    pub has_signal: bool,
}

/// What the tile is told when this node begins a leader slot.
#[derive(Clone, Copy, Debug, PartialEq, Eq, Structural)]
pub struct BeginLeaderParams {
    pub slot: u64,
    pub epoch: u64,
    pub hashes_per_tick: u64,
    /// A slot's nanoseconds over its ticks, before the tick service adjusts it.
    pub slot_tick_ns: u64,
    pub max_data_shreds: u64,
    /// 1 when the bank takes only votes, else 0.
    pub vote_only: i32,
    pub block_deadline_ns: u64,
}

/// What the tile is told when it is reset onto a bank.
#[derive(Clone, Copy, Debug, PartialEq, Eq)]
pub struct ResetParams {
    pub slot: u64,
    pub hashes_per_tick: u64,
    /// A slot's nanoseconds over its ticks, before the tick service adjusts it.
    pub slot_tick_ns: u64,
    /// The bank's block id; without one the tile gets none (a null pointer).
    pub block_id: Option<[u8; 32]>,
    /// 1 when the tile is to produce alpenglow blocks, else 0.
    pub alpenglow: i32,
}

/// The hashes per tick of a bank or configuration: one when none is set.
pub open spec fn spec_hashes_per_tick(h: Option<u64>) -> u64 {
    match h {
        Some(n) => n,
        None => 1,
    }
}

/// The length of a tick in a slot of `ns_per_slot` nanoseconds: the slot over
/// its ticks (at least one), kept to its low 64 bits.
pub open spec fn spec_slot_tick_ns(ns_per_slot: u128, ticks_per_slot: u64) -> u64 {
    (ns_per_slot / (if ticks_per_slot < 1 { 1 } else { ticks_per_slot }) as u128) as u64
}

/// The hashes per tick of a bank or configuration: one when none is set.
pub fn hashes_per_tick(h: Option<u64>) -> (n: u64)
    ensures
        n == spec_hashes_per_tick(h),
{
    match h {
        Some(n) => n,
        None => 1,
    }
}

/// What the tile is initialized with: the configured hashes per tick (one by
/// default), the ticks per slot, the starting tick height, and whether a
/// signal is handed over.
pub fn init_params(
    hashes_per_tick_config: Option<u64>,
    ticks_per_slot: u64,
    tick_height: u64,
    clear_bank_signal_given: bool,
) -> (p: InitParams)
    ensures
        p == (InitParams {
            hashcnt_per_tick: spec_hashes_per_tick(hashes_per_tick_config),
            ticks_per_slot,
            tick_height,
            has_signal: clear_bank_signal_given,
        }),
{
    InitParams {
        hashcnt_per_tick: hashes_per_tick(hashes_per_tick_config),
        ticks_per_slot,
        tick_height,
        has_signal: clear_bank_signal_given,
    }
}

impl PohRecorderState {
    /// A recorder starting on the given bank, with no deadline, not in
    /// alpenglow, and a leader state with no bank.
    pub fn new(
        ticks_per_slot: u64,
        start_bank_id: u64,
        tick_height: u64,
        leader_first_tick_height: Option<u64>,
        next_leader_slot: Option<(u64, u64)>,
    ) -> (r: PohRecorderState)
        ensures
            r.ticks_per_slot == ticks_per_slot,
            !r.is_alpenglow_enabled,
            r.alpenglow_block_deadline_ns == NO_BLOCK_DEADLINE,
            r.start_bank_id == start_bank_id,
            r.leader_state == (LeaderState {
                has_bank: false,
                tick_height,
                leader_first_tick_height,
                next_leader_slot,
            }),
    {
        PohRecorderState {
            ticks_per_slot,
            is_alpenglow_enabled: false,
            alpenglow_block_deadline_ns: NO_BLOCK_DEADLINE,
            start_bank_id,
            leader_state: LeaderState {
                has_bank: false,
                tick_height,
                leader_first_tick_height,
                next_leader_slot,
            },
        }
    }

    /// Records the deadline that the next opened block is held to.
    pub fn set_alpenglow_block_deadline_ns(&mut self, deadline_ns: u64)
        ensures
            final(self).alpenglow_block_deadline_ns == deadline_ns,
            final(self).ticks_per_slot == old(self).ticks_per_slot,
            final(self).is_alpenglow_enabled == old(self).is_alpenglow_enabled,
            final(self).start_bank_id == old(self).start_bank_id,
            final(self).leader_state == old(self).leader_state,
    {
        self.alpenglow_block_deadline_ns = deadline_ns;
    }

    /// Hands out the deadline for the block being opened, once: the stored
    /// deadline is cleared so that a later block cannot inherit it.
    pub fn take_block_deadline(&mut self) -> (d: u64)
        ensures
            d == old(self).alpenglow_block_deadline_ns,
            final(self).alpenglow_block_deadline_ns == NO_BLOCK_DEADLINE,
            final(self).ticks_per_slot == old(self).ticks_per_slot,
            final(self).is_alpenglow_enabled == old(self).is_alpenglow_enabled,
            final(self).start_bank_id == old(self).start_bank_id,
            final(self).leader_state == old(self).leader_state,
    {
        let d = self.alpenglow_block_deadline_ns;
        self.alpenglow_block_deadline_ns = NO_BLOCK_DEADLINE;
        d
    }

    /// Begins a leader slot on a bank: the leader state takes the bank and
    /// keeps its heights and range, the deadline is taken once, and the tile
    /// is told the bank's slot and epoch, its hashes per tick (one by
    /// default), the tick length, its data-shred limit and whether it takes
    /// only votes.
    pub fn set_bank(
        &mut self,
        slot: u64,
        epoch: u64,
        bank_hashes_per_tick: Option<u64>,
        ns_per_slot: u128,
        max_data_shreds_per_slot: u64,
        vote_only_bank: bool,
    ) -> (p: BeginLeaderParams)
        ensures
            final(self).leader_state == (LeaderState { has_bank: true, ..old(self).leader_state }),
            p == (BeginLeaderParams {
                slot,
                epoch,
                hashes_per_tick: spec_hashes_per_tick(bank_hashes_per_tick),
                slot_tick_ns: spec_slot_tick_ns(ns_per_slot, old(self).ticks_per_slot),
                max_data_shreds: max_data_shreds_per_slot,
                vote_only: if vote_only_bank { 1i32 } else { 0i32 },
                block_deadline_ns: old(self).alpenglow_block_deadline_ns,
            }),
            final(self).alpenglow_block_deadline_ns == NO_BLOCK_DEADLINE,
            final(self).ticks_per_slot == old(self).ticks_per_slot,
            final(self).is_alpenglow_enabled == old(self).is_alpenglow_enabled,
            final(self).start_bank_id == old(self).start_bank_id,
    {
        self.leader_state = LeaderState { has_bank: true, ..self.leader_state };
        let block_deadline_ns = self.take_block_deadline();
        BeginLeaderParams {
            slot,
            epoch,
            hashes_per_tick: hashes_per_tick(bank_hashes_per_tick),
            slot_tick_ns: tick_duration_ns(ns_per_slot, self.ticks_per_slot),
            max_data_shreds: max_data_shreds_per_slot,
            vote_only: if vote_only_bank {
                1
            } else {
                0
            },
            block_deadline_ns,
        }
    }

    /// Switches to alpenglow; calling it again changes nothing.
    pub fn enable_alpenglow(&mut self)
        ensures
            final(self).is_alpenglow_enabled,
            final(self).ticks_per_slot == old(self).ticks_per_slot,
            final(self).alpenglow_block_deadline_ns == old(self).alpenglow_block_deadline_ns,
            final(self).start_bank_id == old(self).start_bank_id,
            final(self).leader_state == old(self).leader_state,
    {
        self.is_alpenglow_enabled = true;
    }

    /// Records a reset onto a bank, where the tile's reset slot is
    /// `tile_reset_slot`: the bank becomes the start bank; the leader state
    /// loses its bank, its tick height becomes the first tick after the start
    /// slot, and it takes the given next leader slots and their first tick
    /// height. The tile is told the bank's slot, its hashes per tick (one by
    /// default), the tick length, its block id if it has one, and whether to
    /// run alpenglow: when the bank is an alpenglow bank or alpenglow was
    /// enabled.
    pub fn reset(
        &mut self,
        reset_bank_id: u64,
        tile_reset_slot: u64,
        leader_first_tick_height: Option<u64>,
        next_leader_slot: Option<(u64, u64)>,
        bank_slot: u64,
        bank_hashes_per_tick: Option<u64>,
        ns_per_slot: u128,
        block_id: Option<[u8; 32]>,
        bank_is_alpenglow: bool,
    ) -> (p: ResetParams)
        requires
            tile_reset_slot >= 1,
            tile_reset_slot * old(self).ticks_per_slot <= u64::MAX,
        ensures
            final(self).start_bank_id == reset_bank_id,
            final(self).leader_state == (LeaderState {
                has_bank: false,
                tick_height: (tile_reset_slot * old(self).ticks_per_slot) as u64,
                leader_first_tick_height,
                next_leader_slot,
            }),
            p == (ResetParams {
                slot: bank_slot,
                hashes_per_tick: spec_hashes_per_tick(bank_hashes_per_tick),
                slot_tick_ns: spec_slot_tick_ns(ns_per_slot, old(self).ticks_per_slot),
                block_id,
                alpenglow: if bank_is_alpenglow || old(self).is_alpenglow_enabled {
                    1i32
                } else {
                    0i32
                },
            }),
            final(self).ticks_per_slot == old(self).ticks_per_slot,
            final(self).is_alpenglow_enabled == old(self).is_alpenglow_enabled,
            final(self).alpenglow_block_deadline_ns == old(self).alpenglow_block_deadline_ns,
    {
        self.start_bank_id = reset_bank_id;
        let start = start_slot(tile_reset_slot);
        let tick_height = reset_tick_height(start, self.ticks_per_slot);
        self.leader_state = LeaderState {
            has_bank: false,
            tick_height,
            leader_first_tick_height,
            next_leader_slot,
        };
        ResetParams {
            slot: bank_slot,
            hashes_per_tick: hashes_per_tick(bank_hashes_per_tick),
            slot_tick_ns: tick_duration_ns(ns_per_slot, self.ticks_per_slot),
            block_id,
            alpenglow: if bank_is_alpenglow || self.is_alpenglow_enabled {
                1
            } else {
                0
            },
        }
    }

    /// Identity of the bank the tile was last reset onto.
    pub fn start_bank_id(&self) -> (id: u64)
        ensures
            id == self.start_bank_id,
    {
        self.start_bank_id
    }

    /// Ticks per slot.
    pub fn ticks_per_slot(&self) -> (t: u64)
        ensures
            t == self.ticks_per_slot,
    {
        self.ticks_per_slot
    }

    /// Whether this node would be leader within the given number of ticks:
    /// always answered yes, so that gossiped votes are always forwarded.
    pub fn would_be_leader(&self, within_next_n_ticks: u64) -> (r: bool)
        ensures
            r,
    {
        true
    }

    /// The leader and slot some slots ahead: not tracked on this side.
    pub fn leader_and_slot_after_n_slots(&self, slots_in_the_future: u64) -> (r: Option<
        ([u8; 32], u64),
    >)
        ensures
            r is None,
    {
        None
    }
}

/// The slot the tile starts from: the one before its reset slot.
pub fn start_slot(reset_slot: u64) -> (s: u64)
    requires
        reset_slot >= 1,
    ensures
        s == reset_slot - 1,
{
    reset_slot - 1
}

/// The tick height at a reset: the first tick after the start slot.
pub fn reset_tick_height(start_slot: u64, ticks_per_slot: u64) -> (h: u64)
    requires
        start_slot < u64::MAX,
        (start_slot + 1) * ticks_per_slot <= u64::MAX,
    ensures
        h == (start_slot + 1) * ticks_per_slot,
{
    (start_slot + 1) * ticks_per_slot
}

/// The leader status the tile reports: reached when it says so, with the
/// slot before its reset slot as the parent.
pub fn reached_leader_slot(is_leader: i32, leader_slot: u64, reset_slot: u64) -> (s: PohLeaderStatus)
    requires
        is_leader != 0 ==> reset_slot >= 1,
    ensures
        s == if is_leader != 0 {
            PohLeaderStatus::Reached { poh_slot: leader_slot, parent_slot: (reset_slot - 1) as u64 }
        } else {
            PohLeaderStatus::NotReached
        },
{
    if is_leader != 0 {
        PohLeaderStatus::Reached { poh_slot: leader_slot, parent_slot: reset_slot - 1 }
    } else {
        PohLeaderStatus::NotReached
    }
}

/// The leader some slots ahead, from the tile's answer: its key when the tile
/// answers one.
pub fn leader_after_n_slots(found: i32, pubkey: [u8; 32]) -> (r: Option<[u8; 32]>)
    ensures
        r == if found == 1 {
            Some(pubkey)
        } else {
            None
        },
{
    if found == 1 {
        Some(pubkey)
    } else {
        None
    }
}

/// The highest of the active descendant slots, or zero when there is none.
pub fn max_active_descendant(active_descendants: &[u64]) -> (m: u64)
    ensures
        active_descendants@.len() == 0 ==> m == 0,
        active_descendants@.len() > 0 ==> active_descendants@.contains(m),
        forall|i: int| 0 <= i < active_descendants@.len() ==> active_descendants@[i] <= m,
{
    let mut m: u64 = 0;
    let mut i: usize = 0;
    while i < active_descendants.len()
        invariant
            i <= active_descendants@.len(),
            i == 0 ==> m == 0,
            i > 0 ==> exists|j: int| 0 <= j < i && active_descendants@[j] == m,
            forall|j: int| 0 <= j < i ==> active_descendants@[j] <= m,
        decreases active_descendants@.len() - i,
    {
        if i == 0 || active_descendants[i] > m {
            m = active_descendants[i];
        }
        i = i + 1;
    }
    m
}

/// The length of a tick: a slot's nanoseconds over the ticks in it (at least
/// one), kept to its low 64 bits.
pub fn tick_duration_ns(ns_per_slot: u128, ticks_per_slot: u64) -> (d: u64)
    ensures
        d == spec_slot_tick_ns(ns_per_slot, ticks_per_slot),
{
    let t: u64 = if ticks_per_slot < 1 {
        1
    } else {
        ticks_per_slot
    };
    (ns_per_slot / t as u128) as u64
}

} // verus!
