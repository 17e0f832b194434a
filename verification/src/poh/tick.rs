//! The end-of-block sequence as a state machine: ask the tile to end the
//! block, wait for its tick, register it and wake replay, wait for the bank to
//! freeze, then send the footer. The caller performs each action and reports
//! what it observed as the next event.
use vstd::prelude::*;
use crate::poh::recorder::PohRecorderError;

verus! {

/// Where the sequence stands.
#[derive(Clone, Copy, Debug, PartialEq, Eq, Structural)]
pub enum TickStage {
    Start,
    Draining,
    Freezing,
    Publishing,
    Finished,
}

/// The sequence for one block: its stage, the slot of the block, and how
/// long each wait may last.
#[derive(Clone, Copy, Debug, PartialEq, Eq, Structural)]
pub struct TickMachine {
    pub stage: TickStage,
    pub slot: u64,
    pub budget_ns: u64,
}

/// What the caller observed.
#[derive(Clone, Copy, Debug, PartialEq, Eq, Structural)]
pub enum TickEvent {
    /// The working bank (its slot, if there is one) and the length of its slot.
    Started { bank_slot: Option<u64>, ns_per_slot: u64 },
    /// One poll of the tile for the tick hash.
    TickPolled { tick_ready: bool, exited: bool, elapsed_ns: u64 },
    /// One look at whether the bank is frozen.
    FreezePolled { frozen: bool, exited: bool, elapsed_ns: u64 },
    /// Whether the footer serialized, and the tile's answer to it.
    FooterSent { serialized: bool, rc: i32 },
}

/// What the caller is to do next.
#[derive(Clone, Copy, Debug, PartialEq, Eq)]
pub enum TickAction {
    /// Ask the tile to end the block, then poll for the tick.
    BeginTick,
    /// Poll for the tick again.
    PollTick,
    /// Register the tick on the bank and wake replay, then look at the bank.
    RegisterTickAndWakeReplay,
    /// Look at the bank again.
    PollFreeze,
    /// Serialize the footer with the bank's hash and hand it to the tile.
    SendFooter,
    /// The sequence is over, with this outcome.
    Done(Result<(), PohRecorderError>),
    /// The event does not belong to this stage; nothing changes.
    Ignore,
}

/// The next state and action of the end-of-block sequence.
pub open spec fn spec_tick_step(m: TickMachine, e: TickEvent) -> (TickMachine, TickAction) {
    let finished = TickMachine { stage: TickStage::Finished, ..m };
    match (m.stage, e) {
        (TickStage::Start, TickEvent::Started { bank_slot, ns_per_slot }) => match bank_slot {
            None => (finished, TickAction::Done(Err(PohRecorderError::MaxHeightReached))),
            Some(slot) => (
                TickMachine { stage: TickStage::Draining, slot, budget_ns: ns_per_slot },
                TickAction::BeginTick,
            ),
        },
        (TickStage::Draining, TickEvent::TickPolled { tick_ready, exited, elapsed_ns }) => {
            if tick_ready {
                (TickMachine { stage: TickStage::Freezing, ..m }, TickAction::RegisterTickAndWakeReplay)
            } else if exited {
                (finished, TickAction::Done(Err(PohRecorderError::ChannelDisconnected)))
            } else if elapsed_ns > m.budget_ns {
                (finished, TickAction::Done(Err(PohRecorderError::BankFreezeTimeout(m.slot))))
            } else {
                (m, TickAction::PollTick)
            }
        },
        (TickStage::Freezing, TickEvent::FreezePolled { frozen, exited, elapsed_ns }) => {
            if frozen {
                (TickMachine { stage: TickStage::Publishing, ..m }, TickAction::SendFooter)
            } else if exited {
                (finished, TickAction::Done(Err(PohRecorderError::ChannelDisconnected)))
            } else if elapsed_ns > m.budget_ns {
                (finished, TickAction::Done(Err(PohRecorderError::BankFreezeTimeout(m.slot))))
            } else {
                (m, TickAction::PollFreeze)
            }
        },
        (TickStage::Publishing, TickEvent::FooterSent { serialized, rc }) => {
            if !serialized || rc != 0 {
                (finished, TickAction::Done(Err(PohRecorderError::MaxHeightReached)))
            } else {
                (finished, TickAction::Done(Ok(())))
            }
        },
        _ => (m, TickAction::Ignore),
    }
}

impl TickMachine {
    /// The sequence before anything happened.
    pub fn new() -> (m: TickMachine)
        ensures
            m.stage == TickStage::Start,
    {
        TickMachine { stage: TickStage::Start, slot: 0, budget_ns: 0 }
    }

    /// Advances the sequence by one observed event.
    pub fn step(&self, e: TickEvent) -> (r: (TickMachine, TickAction))
        ensures
            r == spec_tick_step(*self, e),
    {
        let finished = TickMachine { stage: TickStage::Finished, slot: self.slot, budget_ns: self.budget_ns };
        match (self.stage, e) {
            (TickStage::Start, TickEvent::Started { bank_slot, ns_per_slot }) => match bank_slot {
                None => (finished, TickAction::Done(Err(PohRecorderError::MaxHeightReached))),
                Some(slot) => (
                    TickMachine { stage: TickStage::Draining, slot, budget_ns: ns_per_slot },
                    TickAction::BeginTick,
                ),
            },
            (TickStage::Draining, TickEvent::TickPolled { tick_ready, exited, elapsed_ns }) => {
                if tick_ready {
                    (
                        TickMachine { stage: TickStage::Freezing, slot: self.slot, budget_ns: self.budget_ns },
                        TickAction::RegisterTickAndWakeReplay,
                    )
                } else if exited {
                    (finished, TickAction::Done(Err(PohRecorderError::ChannelDisconnected)))
                } else if elapsed_ns > self.budget_ns {
                    (finished, TickAction::Done(Err(PohRecorderError::BankFreezeTimeout(self.slot))))
                } else {
                    (*self, TickAction::PollTick)
                }
            },
            (TickStage::Freezing, TickEvent::FreezePolled { frozen, exited, elapsed_ns }) => {
                if frozen {
                    (
                        TickMachine { stage: TickStage::Publishing, slot: self.slot, budget_ns: self.budget_ns },
                        TickAction::SendFooter,
                    )
                } else if exited {
                    (finished, TickAction::Done(Err(PohRecorderError::ChannelDisconnected)))
                } else if elapsed_ns > self.budget_ns {
                    (finished, TickAction::Done(Err(PohRecorderError::BankFreezeTimeout(self.slot))))
                } else {
                    (*self, TickAction::PollFreeze)
                }
            },
            (TickStage::Publishing, TickEvent::FooterSent { serialized, rc }) => {
                if !serialized || rc != 0 {
                    (finished, TickAction::Done(Err(PohRecorderError::MaxHeightReached)))
                } else {
                    (finished, TickAction::Done(Ok(())))
                }
            },
            _ => (*self, TickAction::Ignore),
        }
    }
}

/// The footer is sent only once the bank was seen frozen.
pub proof fn law_footer_only_after_freeze(m: TickMachine, e: TickEvent)
    requires
        spec_tick_step(m, e).1 == TickAction::SendFooter,
    ensures
        m.stage == TickStage::Freezing,
        e matches TickEvent::FreezePolled { frozen, .. } && frozen,
{
}

/// The tick is registered only once the tile produced it.
pub proof fn law_tick_registered_only_when_ready(m: TickMachine, e: TickEvent)
    requires
        spec_tick_step(m, e).1 == TickAction::RegisterTickAndWakeReplay,
    ensures
        m.stage == TickStage::Draining,
        e matches TickEvent::TickPolled { tick_ready, .. } && tick_ready,
{
}

/// A finished sequence stays finished and does nothing more.
pub proof fn law_finished_is_final(m: TickMachine, e: TickEvent)
    requires
        m.stage == TickStage::Finished,
    ensures
        spec_tick_step(m, e) == (m, TickAction::Ignore),
{
}

/// Every outcome finishes the sequence, and a timeout names the block's slot.
pub proof fn law_done_finishes(m: TickMachine, e: TickEvent)
    requires
        spec_tick_step(m, e).1 is Done,
    ensures
        spec_tick_step(m, e).0.stage == TickStage::Finished,
        spec_tick_step(m, e).1 == TickAction::Done(Err(PohRecorderError::BankFreezeTimeout(
            m.slot,
        ))) || !(spec_tick_step(m, e).1 matches TickAction::Done(Err(
            PohRecorderError::BankFreezeTimeout(_),
        ))),
{
}

/// The sequence succeeds only from publishing, when the footer serialized and the tile took it.
pub proof fn law_success_needs_accepted_footer(m: TickMachine, e: TickEvent)
    requires
        spec_tick_step(m, e).1 == TickAction::Done(Ok(())),
    ensures
        m.stage == TickStage::Publishing,
        e == (TickEvent::FooterSent { serialized: true, rc: 0 }),
{
}

/// A timeout is reported only while the validator is still running, when the
/// awaited tick or freeze has not happened and the observed wait is longer
/// than the budget; it names the block's slot.
pub proof fn law_timeout_only_past_budget(m: TickMachine, e: TickEvent)
    requires
        spec_tick_step(m, e).1 matches TickAction::Done(Err(PohRecorderError::BankFreezeTimeout(_))),
    ensures
        spec_tick_step(m, e).1 == TickAction::Done(Err(PohRecorderError::BankFreezeTimeout(m.slot))),
        match e {
            TickEvent::TickPolled { tick_ready, exited, elapsed_ns } => {
                &&& m.stage == TickStage::Draining
                &&& !tick_ready
                &&& !exited
                &&& elapsed_ns > m.budget_ns
            },
            TickEvent::FreezePolled { frozen, exited, elapsed_ns } => {
                &&& m.stage == TickStage::Freezing
                &&& !frozen
                &&& !exited
                &&& elapsed_ns > m.budget_ns
            },
            _ => false,
        },
{
}

/// When the validator has exited while the tick is not ready, or while the
/// bank is not frozen, the sequence ends with a disconnected channel, however
/// long the wait has been.
pub proof fn law_exit_disconnects(m: TickMachine, elapsed_ns: u64)
    ensures
        m.stage == TickStage::Draining ==> spec_tick_step(
            m,
            TickEvent::TickPolled { tick_ready: false, exited: true, elapsed_ns },
        ) == (
            TickMachine { stage: TickStage::Finished, ..m },
            TickAction::Done(Err(PohRecorderError::ChannelDisconnected)),
        ),
        m.stage == TickStage::Freezing ==> spec_tick_step(
            m,
            TickEvent::FreezePolled { frozen: false, exited: true, elapsed_ns },
        ) == (
            TickMachine { stage: TickStage::Finished, ..m },
            TickAction::Done(Err(PohRecorderError::ChannelDisconnected)),
        ),
{
}

/// The sequence starts on the working bank: with one it waits on that bank's
/// slot for at most one slot's length and asks the tile to end the block;
/// without one it ends at once with the height reached.
pub proof fn law_start_takes_working_bank(m: TickMachine, bank_slot: Option<u64>, ns_per_slot: u64)
    requires
        m.stage == TickStage::Start,
    ensures
        spec_tick_step(m, TickEvent::Started { bank_slot, ns_per_slot }) == match bank_slot {
            Some(slot) => (
                TickMachine { stage: TickStage::Draining, slot, budget_ns: ns_per_slot },
                TickAction::BeginTick,
            ),
            None => (
                TickMachine { stage: TickStage::Finished, ..m },
                TickAction::Done(Err(PohRecorderError::MaxHeightReached)),
            ),
        },
{
}

/// While the validator runs and the wait is within the budget, a tick not
/// yet ready is polled again and a bank not yet frozen is looked at again,
/// with nothing changed.
pub proof fn law_wait_within_budget_polls_again(m: TickMachine, elapsed_ns: u64)
    requires
        elapsed_ns <= m.budget_ns,
    ensures
        m.stage == TickStage::Draining ==> spec_tick_step(
            m,
            TickEvent::TickPolled { tick_ready: false, exited: false, elapsed_ns },
        ) == (m, TickAction::PollTick),
        m.stage == TickStage::Freezing ==> spec_tick_step(
            m,
            TickEvent::FreezePolled { frozen: false, exited: false, elapsed_ns },
        ) == (m, TickAction::PollFreeze),
{
}

/// A footer that did not serialize, or that the tile refused, ends the
/// sequence with the height reached.
pub proof fn law_footer_failure(m: TickMachine, serialized: bool, rc: i32)
    requires
        m.stage == TickStage::Publishing,
        !serialized || rc != 0,
    ensures
        spec_tick_step(m, TickEvent::FooterSent { serialized, rc }) == (
            TickMachine { stage: TickStage::Finished, ..m },
            TickAction::Done(Err(PohRecorderError::MaxHeightReached)),
        ),
{
}

} // verus!
