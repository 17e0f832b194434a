use fd_agave::poh::epoch::{feature_activation_slot, features_activation_slots, EpochScheduleFields, NOT_ACTIVATED};
use fd_agave::poh::recorder::{
    hashes_per_tick, init_params, leader_after_n_slots, max_active_descendant,
    reached_leader_slot, reset_tick_height, start_slot, tick_duration_ns, BeginLeaderParams,
    InitParams, LeaderState, PohLeaderStatus, PohRecorderError, PohRecorderState, ResetParams,
    NO_BLOCK_DEADLINE,
};
use fd_agave::poh::shutdown::{shutdown_step, ShutdownAction, ShutdownEvent, ShutdownStage};
use fd_agave::poh::tick::{TickAction, TickEvent, TickMachine, TickStage};

#[test]
fn deadline_is_taken_once() {
    let mut r = PohRecorderState::new(64, 9, 640, Some(1280), Some((20, 23)));
    assert_eq!(r.alpenglow_block_deadline_ns, NO_BLOCK_DEADLINE);
    r.set_alpenglow_block_deadline_ns(400_000_000);
    assert_eq!(r.take_block_deadline(), 400_000_000);
    assert_eq!(r.take_block_deadline(), NO_BLOCK_DEADLINE);
}

#[test]
fn reset_tracks_bank_and_alpenglow() {
    let mut r = PohRecorderState::new(64, 9, 640, Some(1280), Some((20, 23)));
    let p = r.reset(10, 101, Some(1920), Some((30, 33)), 100, None, 400_000_000, None, false);
    assert_eq!(
        p,
        ResetParams { slot: 100, hashes_per_tick: 1, slot_tick_ns: 6_250_000, block_id: None, alpenglow: 0 }
    );
    assert_eq!(r.start_bank_id(), 10);
    assert_eq!(
        r.leader_state,
        LeaderState {
            has_bank: false,
            tick_height: 101 * 64,
            leader_first_tick_height: Some(1920),
            next_leader_slot: Some((30, 33)),
        }
    );
    let p = r.reset(11, 102, None, None, 101, Some(12_500), 400_000_000, Some([7; 32]), true);
    assert_eq!(p.hashes_per_tick, 12_500);
    assert_eq!(p.block_id, Some([7; 32]));
    assert_eq!(p.alpenglow, 1);
    r.enable_alpenglow();
    r.enable_alpenglow();
    let p = r.reset(12, 103, None, None, 102, None, 400_000_000, None, false);
    assert_eq!(p.alpenglow, 1);
    assert_eq!(r.start_bank_id(), 12);
    assert!(r.would_be_leader(5));
    assert_eq!(r.leader_and_slot_after_n_slots(3), None);
    assert_eq!(r.ticks_per_slot(), 64);
}

#[test]
fn set_bank_hands_over_leader_parameters() {
    let mut r = PohRecorderState::new(64, 9, 640, Some(1280), Some((20, 23)));
    r.set_alpenglow_block_deadline_ns(350_000_000);
    let p = r.set_bank(20, 3, None, 400_000_000, 32_768, true);
    assert_eq!(
        p,
        BeginLeaderParams {
            slot: 20,
            epoch: 3,
            hashes_per_tick: 1,
            slot_tick_ns: 6_250_000,
            max_data_shreds: 32_768,
            vote_only: 1,
            block_deadline_ns: 350_000_000,
        }
    );
    assert_eq!(
        r.leader_state,
        LeaderState {
            has_bank: true,
            tick_height: 640,
            leader_first_tick_height: Some(1280),
            next_leader_slot: Some((20, 23)),
        }
    );
    // the deadline was for that bank only
    let p = r.set_bank(21, 3, Some(9), 400_000_000, 32_768, false);
    assert_eq!(p.block_deadline_ns, NO_BLOCK_DEADLINE);
    assert_eq!(p.hashes_per_tick, 9);
    assert_eq!(p.vote_only, 0);
}

#[test]
fn init_parameters_default_and_signal() {
    assert_eq!(hashes_per_tick(None), 1);
    assert_eq!(hashes_per_tick(Some(12_500)), 12_500);
    assert_eq!(
        init_params(None, 64, 640, false),
        InitParams { hashcnt_per_tick: 1, ticks_per_slot: 64, tick_height: 640, has_signal: false }
    );
    assert_eq!(init_params(Some(5), 64, 0, true).has_signal, true);
}

#[test]
fn leader_status_and_slots() {
    assert_eq!(start_slot(101), 100);
    assert_eq!(reset_tick_height(100, 64), 6464);
    assert_eq!(reached_leader_slot(0, 5, 3), PohLeaderStatus::NotReached);
    assert_eq!(
        reached_leader_slot(1, 20, 17),
        PohLeaderStatus::Reached { poh_slot: 20, parent_slot: 16 }
    );
    assert_eq!(leader_after_n_slots(1, [3; 32]), Some([3; 32]));
    assert_eq!(leader_after_n_slots(0, [3; 32]), None);
    assert_eq!(max_active_descendant(&[]), 0);
    assert_eq!(max_active_descendant(&[4, 9, 2]), 9);
    assert_eq!(tick_duration_ns(400_000_000, 64), 6_250_000);
    assert_eq!(tick_duration_ns(400, 0), 400);
}

#[test]
fn end_of_block_success() {
    let m = TickMachine::new();
    let (m, a) = m.step(TickEvent::Started { bank_slot: Some(77), ns_per_slot: 1000 });
    assert_eq!(a, TickAction::BeginTick);
    let (m, a) = m.step(TickEvent::TickPolled { tick_ready: false, exited: false, elapsed_ns: 10 });
    assert_eq!(a, TickAction::PollTick);
    let (m, a) = m.step(TickEvent::TickPolled { tick_ready: true, exited: false, elapsed_ns: 20 });
    assert_eq!(a, TickAction::RegisterTickAndWakeReplay);
    let (m, a) = m.step(TickEvent::FreezePolled { frozen: false, exited: false, elapsed_ns: 5 });
    assert_eq!(a, TickAction::PollFreeze);
    let (m, a) = m.step(TickEvent::FreezePolled { frozen: true, exited: true, elapsed_ns: 5 });
    assert_eq!(a, TickAction::SendFooter);
    let (m, a) = m.step(TickEvent::FooterSent { serialized: true, rc: 0 });
    assert_eq!(a, TickAction::Done(Ok(())));
    assert_eq!(m.stage, TickStage::Finished);
    let (_, a) = m.step(TickEvent::FooterSent { serialized: true, rc: 0 });
    assert_eq!(a, TickAction::Ignore);
}

#[test]
fn end_of_block_failures() {
    let (_, a) = TickMachine::new().step(TickEvent::Started { bank_slot: None, ns_per_slot: 1 });
    assert_eq!(a, TickAction::Done(Err(PohRecorderError::MaxHeightReached)));
    let (m, _) = TickMachine::new().step(TickEvent::Started { bank_slot: Some(5), ns_per_slot: 100 });
    let (_, a) = m.step(TickEvent::TickPolled { tick_ready: false, exited: true, elapsed_ns: 0 });
    assert_eq!(a, TickAction::Done(Err(PohRecorderError::ChannelDisconnected)));
    let (_, a) = m.step(TickEvent::TickPolled { tick_ready: false, exited: false, elapsed_ns: 101 });
    assert_eq!(a, TickAction::Done(Err(PohRecorderError::BankFreezeTimeout(5))));
    let (m, _) = m.step(TickEvent::TickPolled { tick_ready: true, exited: false, elapsed_ns: 0 });
    let (_, a) = m.step(TickEvent::FreezePolled { frozen: false, exited: false, elapsed_ns: 101 });
    assert_eq!(a, TickAction::Done(Err(PohRecorderError::BankFreezeTimeout(5))));
    let (m, _) = m.step(TickEvent::FreezePolled { frozen: true, exited: false, elapsed_ns: 0 });
    let (_, a) = m.step(TickEvent::FooterSent { serialized: true, rc: 1 });
    assert_eq!(a, TickAction::Done(Err(PohRecorderError::MaxHeightReached)));
    let (_, a) = m.step(TickEvent::FooterSent { serialized: false, rc: 0 });
    assert_eq!(a, TickAction::Done(Err(PohRecorderError::MaxHeightReached)));
}

#[test]
fn shutdown_handoff() {
    let s = ShutdownStage::Waiting;
    assert_eq!(shutdown_step(s, ShutdownEvent::Polled { shutdown_poh: false, exit: false }), (ShutdownStage::Waiting, ShutdownAction::Sleep));
    assert_eq!(shutdown_step(s, ShutdownEvent::Polled { shutdown_poh: false, exit: true }), (ShutdownStage::Done, ShutdownAction::Stop));
    let (s, a) = shutdown_step(s, ShutdownEvent::Polled { shutdown_poh: true, exit: true });
    assert_eq!(a, ShutdownAction::EnableAlpenglowAndSendReceiver);
    assert_eq!(shutdown_step(s, ShutdownEvent::ReceiverSent { sent: true, ready_to_enable: true }), (ShutdownStage::Done, ShutdownAction::MarkPohShuttingDown));
    assert_eq!(shutdown_step(s, ShutdownEvent::ReceiverSent { sent: true, ready_to_enable: false }), (ShutdownStage::Done, ShutdownAction::Stop));
    assert_eq!(shutdown_step(s, ShutdownEvent::ReceiverSent { sent: false, ready_to_enable: true }), (ShutdownStage::Done, ShutdownAction::Stop));
}

fn schedule() -> EpochScheduleFields {
    // 8192 slots per epoch, warmup: first normal epoch 8, first normal slot 8160
    EpochScheduleFields {
        slots_per_epoch: 8192,
        leader_schedule_slot_offset: 8192,
        warmup: true,
        first_normal_epoch: 8,
        first_normal_slot: 8160,
    }
}

#[test]
fn feature_activation_slots() {
    let s = schedule();
    assert_eq!(feature_activation_slot(&s, None), NOT_ACTIVATED);
    // slot 8160 is the first slot of epoch 8; the next epoch starts at 16352
    assert_eq!(feature_activation_slot(&s, Some(8160)), 16352);
    // slot 40 is in warmup epoch 1, which covers slots 32..96
    assert_eq!(feature_activation_slot(&s, Some(40)), 96);
    assert_eq!(feature_activation_slot(&s, Some(0)), 32);
    assert_eq!(
        features_activation_slots(&s, &[None, Some(8160), Some(0)]),
        Some(vec![NOT_ACTIVATED, 16352, 32])
    );
}

#[test]
fn feature_activation_slots_not_computable() {
    // a schedule still in warmup at the top of the slot range
    let s = EpochScheduleFields {
        slots_per_epoch: 32,
        leader_schedule_slot_offset: 32,
        warmup: true,
        first_normal_epoch: 60,
        first_normal_slot: u64::MAX,
    };
    assert_eq!(features_activation_slots(&s, &[Some(0), Some(u64::MAX - 1)]), None);
    // the last slot whose epoch can be computed: epoch 57, first slot of 58 is 32 * (2^58 - 1)
    let last = 0x8000_0000_0000_0000u64 - 33;
    assert_eq!(
        features_activation_slots(&s, &[Some(last)]),
        Some(vec![32 * ((1u64 << 58) - 1)])
    );
    // an epoch without a successor
    let s = EpochScheduleFields {
        slots_per_epoch: 1,
        leader_schedule_slot_offset: 1,
        warmup: false,
        first_normal_epoch: u64::MAX,
        first_normal_slot: 0,
    };
    assert_eq!(features_activation_slots(&s, &[None, Some(5)]), None);
}
