use atk_mouse::download_data::MouseStatus;
use atk_mouse::engine::{MutationCycle, SyncPhase};

#[test]
fn cycle_walks_the_documented_phases() {
    let mut cycle = MutationCycle::new();
    assert_eq!(cycle.phase, SyncPhase::Idle);

    cycle.start();
    assert_eq!(cycle.phase, SyncPhase::PollOnline);

    cycle.on_poll_result(MouseStatus::Active);
    assert_eq!(cycle.phase, SyncPhase::SendCommand);

    cycle.on_sent();
    assert_eq!(cycle.phase, SyncPhase::DecodeResponse);

    cycle.on_decoded(true);
    assert_eq!(cycle.phase, SyncPhase::UpdateCache);

    cycle.on_cache_updated();
    assert_eq!(cycle.phase, SyncPhase::Idle);
}

#[test]
fn dormant_reports_keep_the_cycle_polling() {
    let mut cycle = MutationCycle::new();
    cycle.start();
    for _ in 0..5 {
        cycle.on_poll_result(MouseStatus::Dormant);
        assert_eq!(cycle.phase, SyncPhase::PollOnline);
    }
    // A single transition to active readies exactly one send.
    cycle.on_poll_result(MouseStatus::Active);
    assert_eq!(cycle.phase, SyncPhase::SendCommand);
    cycle.on_sent();
    assert_ne!(cycle.phase, SyncPhase::SendCommand);
}

#[test]
fn failed_decode_aborts_to_idle() {
    let mut cycle = MutationCycle::new();
    cycle.start();
    cycle.on_poll_result(MouseStatus::Active);
    cycle.on_sent();
    cycle.on_decoded(false);
    assert_eq!(cycle.phase, SyncPhase::Idle);
}
