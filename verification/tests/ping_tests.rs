use vrpn::PingMonitor;
use vrpn::PingStatus;
use vrpn::TimeVal;
use vrpn::ping_message;
use vrpn::pong_message;
use vrpn::types::SenderId;

#[test]
fn three_silent_ticks_report_three_seconds() {
    let mut monitor = PingMonitor::new();
    let t0 = TimeVal::new(100, 0);
    assert_eq!(monitor.tick(t0), PingStatus::SendPing);
    assert_eq!(monitor.tick(TimeVal::new(101, 0)), PingStatus::Waiting);
    assert_eq!(
        monitor.tick(TimeVal::new(102, 0)),
        PingStatus::RadioSilence(TimeVal::new(2, 0))
    );
    assert_eq!(
        monitor.tick(TimeVal::new(103, 0)),
        PingStatus::RadioSilence(TimeVal::new(3, 0)),
        "three one-second ticks with no pong report three seconds of silence"
    );
}

#[test]
fn prompt_pong_clears_the_slot_before_any_diagnostic() {
    let mut monitor = PingMonitor::new();
    let t0 = TimeVal::new(100, 0);
    assert_eq!(monitor.tick(t0), PingStatus::SendPing);
    // The pong arrives half a second later.
    monitor.on_pong();
    assert!(monitor.unanswered.is_none());
    // The next tick starts a fresh cycle instead of reporting silence.
    assert_eq!(monitor.tick(TimeVal::new(101, 0)), PingStatus::SendPing);
}

#[test]
fn silence_duration_carries_microseconds() {
    let mut monitor = PingMonitor::new();
    assert_eq!(monitor.tick(TimeVal::new(10, 600_000)), PingStatus::SendPing);
    assert_eq!(
        monitor.tick(TimeVal::new(12, 100_000)),
        PingStatus::RadioSilence(TimeVal::new(1, 500_000))
    );
}

#[test]
fn ping_and_pong_messages_use_reserved_system_types() {
    let ping = ping_message(SenderId(4), None);
    assert!(ping.is_system_message());
    assert_eq!(ping.header.message_type.0, -6);
    assert_eq!(ping.header.sender, SenderId(4));
    assert_eq!(ping.body.inner.len(), 0);
    let pong = pong_message(SenderId(4), None);
    assert!(pong.is_system_message());
    assert_eq!(pong.header.message_type.0, -7);
    assert_eq!(pong.body.inner.len(), 0);
}

#[test]
fn wall_clock_scale_timestamps_are_accepted() {
    // Epoch-seconds-sized timestamps drive the monitor directly.
    let mut monitor = PingMonitor::new();
    let t0 = TimeVal::new(1_770_000_000, 250_000);
    assert_eq!(monitor.tick(t0), PingStatus::SendPing);
    assert_eq!(
        monitor.tick(TimeVal::new(1_770_000_002, 250_000)),
        PingStatus::RadioSilence(TimeVal::new(2, 0))
    );
}
