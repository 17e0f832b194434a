//! The alpenglow hand-off that the proof-of-history service would otherwise
//! perform, as a state machine: wait until proof of history is to shut down
//! (or the validator exits), switch the tile to alpenglow and hand the record
//! receiver to block creation, then let the migration move on.
use vstd::prelude::*;

verus! {

/// Where the hand-off stands.
#[derive(Clone, Copy, Debug, PartialEq, Eq, Structural)]
pub enum ShutdownStage {
    Waiting,
    HandingOver,
    Done,
}

/// What the caller observed.
#[derive(Clone, Copy, Debug, PartialEq, Eq, Structural)]
pub enum ShutdownEvent {
    /// One look at the migration's shutdown flag and at the exit flag.
    Polled { shutdown_poh: bool, exit: bool },
    /// Whether the receiver reached block creation, and whether the migration
    /// is still waiting to be enabled.
    ReceiverSent { sent: bool, ready_to_enable: bool },
}

/// What the caller is to do next.
#[derive(Clone, Copy, Debug, PartialEq, Eq, Structural)]
pub enum ShutdownAction {
    /// Wait one poll interval and look again.
    Sleep,
    /// Switch the tile to alpenglow, then send the record receiver.
    EnableAlpenglowAndSendReceiver,
    /// Tell the migration that proof of history is shutting down; then stop.
    MarkPohShuttingDown,
    /// Stop.
    Stop,
    /// The event does not belong to this stage; nothing changes.
    Ignore,
}

/// The next stage and action of the hand-off.
pub open spec fn spec_shutdown_step(s: ShutdownStage, e: ShutdownEvent) -> (ShutdownStage, ShutdownAction) {
    match (s, e) {
        (ShutdownStage::Waiting, ShutdownEvent::Polled { shutdown_poh, exit }) => {
            if shutdown_poh {
                (ShutdownStage::HandingOver, ShutdownAction::EnableAlpenglowAndSendReceiver)
            } else if exit {
                (ShutdownStage::Done, ShutdownAction::Stop)
            } else {
                (ShutdownStage::Waiting, ShutdownAction::Sleep)
            }
        },
        (ShutdownStage::HandingOver, ShutdownEvent::ReceiverSent { sent, ready_to_enable }) => {
            if sent && ready_to_enable {
                (ShutdownStage::Done, ShutdownAction::MarkPohShuttingDown)
            } else {
                (ShutdownStage::Done, ShutdownAction::Stop)
            }
        },
        _ => (s, ShutdownAction::Ignore),
    }
}

/// Advances the hand-off by one observed event.
pub fn shutdown_step(s: ShutdownStage, e: ShutdownEvent) -> (r: (ShutdownStage, ShutdownAction))
    ensures
        r == spec_shutdown_step(s, e),
{
    match (s, e) {
        (ShutdownStage::Waiting, ShutdownEvent::Polled { shutdown_poh, exit }) => {
            if shutdown_poh {
                (ShutdownStage::HandingOver, ShutdownAction::EnableAlpenglowAndSendReceiver)
            } else if exit {
                (ShutdownStage::Done, ShutdownAction::Stop)
            } else {
                (ShutdownStage::Waiting, ShutdownAction::Sleep)
            }
        },
        (ShutdownStage::HandingOver, ShutdownEvent::ReceiverSent { sent, ready_to_enable }) => {
            if sent && ready_to_enable {
                (ShutdownStage::Done, ShutdownAction::MarkPohShuttingDown)
            } else {
                (ShutdownStage::Done, ShutdownAction::Stop)
            }
        },
        _ => (s, ShutdownAction::Ignore),
    }
}

/// Alpenglow is enabled and the receiver handed over only once the migration
/// asked proof of history to shut down.
pub proof fn law_handoff_only_on_shutdown(s: ShutdownStage, e: ShutdownEvent)
    requires
        spec_shutdown_step(s, e).1 == ShutdownAction::EnableAlpenglowAndSendReceiver,
    ensures
        s == ShutdownStage::Waiting,
        e matches ShutdownEvent::Polled { shutdown_poh, .. } && shutdown_poh,
{
}

/// The migration is moved on only after the receiver was handed over, and only
/// when it is still waiting to be enabled.
pub proof fn law_migration_marked_after_handoff(s: ShutdownStage, e: ShutdownEvent)
    requires
        spec_shutdown_step(s, e).1 == ShutdownAction::MarkPohShuttingDown,
    ensures
        s == ShutdownStage::HandingOver,
        e == (ShutdownEvent::ReceiverSent { sent: true, ready_to_enable: true }),
{
}

/// Once done, the hand-off does nothing more.
pub proof fn law_done_is_final(e: ShutdownEvent)
    ensures
        spec_shutdown_step(ShutdownStage::Done, e) == (ShutdownStage::Done, ShutdownAction::Ignore),
{
}

} // verus!
