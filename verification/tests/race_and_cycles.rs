use radio_core::device::Device;
use radio_core::dispatch::AttributeEvent;
use radio_core::machine::{resolve_race, Machine, MachineEvent, Phase, RaceWinner, RadioAction};

#[test]
fn tie_goes_to_the_connection() {
    assert_eq!(resolve_race(true, true), Some(RaceWinner::Connection));
    assert_eq!(resolve_race(true, false), Some(RaceWinner::Connection));
    assert_eq!(resolve_race(false, true), Some(RaceWinner::Timer));
    assert_eq!(resolve_race(false, false), None);
}

#[test]
fn scenario_peer_connects_within_deadline() {
    // The peer connects before the 10-tick deadline: the dispatch loop
    // starts and no burst is sent this cycle.
    let mut d = Device::new(0, 10);
    assert_eq!(d.start(), RadioAction::StartAdvertising);
    d.advance_time(3);
    let a = d.poll_advertising(true);
    assert_eq!(a, Some(RadioAction::RunDispatch));
    assert_eq!(d.machine.phase, Phase::Connected);
    // The loser's alarm was disarmed before the winner's continuation.
    assert_eq!(d.timer.armed_deadline(), None);
    assert!(!d.machine.burst_active);
}

#[test]
fn scenario_no_peer_for_full_deadline_sends_one_burst() {
    // No peer for the full 10 ticks: exactly one burst, then standard
    // advertising resumes.
    let mut d = Device::new(0, 10);
    d.start();
    d.advance_time(9);
    assert_eq!(d.poll_advertising(false), None);
    assert_eq!(d.machine.phase, Phase::Advertising);
    d.advance_time(1);
    assert_eq!(d.poll_advertising(false), Some(RadioAction::StartBurst));
    assert_eq!(d.machine.phase, Phase::BurstBroadcasting);
    // The fired alarm is cleared; no stale deadline survives the race.
    assert_eq!(d.timer.armed_deadline(), None);
    assert_eq!(d.finish_burst(true), RadioAction::StartAdvertising);
    assert_eq!(d.machine.phase, Phase::Advertising);
}

#[test]
fn scenario_write_while_connected_notifies_plus_one() {
    // Peer connects, writes 41 with notifications enabled: one
    // notification carrying 42 comes back.
    let mut d = Device::new(0, 10);
    d.start();
    d.poll_advertising(true);
    let events = vec![
        AttributeEvent::NotificationsEnabled,
        AttributeEvent::Write(41),
    ];
    let delivered = d.serve_connection(&events);
    assert_eq!(delivered, vec![42]);
}

#[test]
fn scenario_disconnect_resumes_advertising_cleanly() {
    // The peer disconnects mid-session: the dispatch loop exits, the
    // machine resumes advertising, no stale connection, a fresh deadline.
    let mut d = Device::new(0, 10);
    d.start();
    d.poll_advertising(true);
    let events = vec![AttributeEvent::Write(5)];
    d.serve_connection(&events);
    assert_eq!(d.machine.phase, Phase::Advertising);
    assert!(!d.machine.connection_live);
    assert_eq!(d.timer.armed_deadline(), Some(d.timer.now() + 10));
}

#[test]
fn connection_has_priority_over_a_due_deadline() {
    // Both operations ready in the same pass: the connection is taken and
    // the due alarm is released, never both transitions.
    let mut d = Device::new(0, 10);
    d.start();
    d.advance_time(50); // the deadline is long past due
    let a = d.poll_advertising(true);
    assert_eq!(a, Some(RadioAction::RunDispatch));
    assert_eq!(d.machine.phase, Phase::Connected);
    assert_eq!(d.timer.armed_deadline(), None);
}

#[test]
fn advertise_failure_retries_from_the_top() {
    let mut d = Device::new(0, 10);
    d.start();
    assert_eq!(d.advertise_failed(), RadioAction::StartAdvertising);
    assert_eq!(d.machine.phase, Phase::Advertising);
    assert!(d.timer.armed_deadline().is_some());
}

#[test]
fn repeated_timeout_cycles_leave_no_orphaned_alarm() {
    // N full advertise -> timeout -> burst -> advertise cycles: at every
    // point at most one alarm is armed, and none outside the race.
    let mut d = Device::new(0, 10);
    d.start();
    for _ in 0..5 {
        d.advance_time(10);
        assert_eq!(d.poll_advertising(false), Some(RadioAction::StartBurst));
        assert_eq!(d.timer.armed_deadline(), None); // burst phase holds no alarm
        d.finish_burst(true);
        assert_eq!(d.machine.phase, Phase::Advertising);
        // exactly the one fresh alarm of the new race
        assert!(d.timer.armed_deadline().is_some());
    }
}

#[test]
fn burst_failure_also_falls_through_to_advertising() {
    let mut d = Device::new(0, 10);
    d.start();
    d.advance_time(10);
    d.poll_advertising(false);
    assert_eq!(d.finish_burst(false), RadioAction::StartAdvertising);
    assert_eq!(d.machine.phase, Phase::Advertising);
}

#[test]
fn machine_steps_match_the_cycle() {
    let mut m = Machine::new();
    assert_eq!(m.step(MachineEvent::Started), RadioAction::StartAdvertising);
    assert_eq!(m.step(MachineEvent::ConnectionAccepted), RadioAction::RunDispatch);
    assert!(m.connection_live);
    assert!(!m.advertising);
    assert_eq!(m.step(MachineEvent::SessionEnded), RadioAction::StartAdvertising);
    assert_eq!(m.step(MachineEvent::DeadlineElapsed), RadioAction::StartBurst);
    assert!(m.burst_active);
    assert!(!m.timer_armed);
    assert_eq!(m.step(MachineEvent::BurstCompleted), RadioAction::StartAdvertising);
    assert!(m.timer_armed);
}
