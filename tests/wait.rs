use tao::wait::{dur2timeout, WaitAction, WaitMessage, WaitThreadState, INFINITE};

#[test]
fn timeout_rounds_up() {
    assert_eq!(dur2timeout(0), 0);
    assert_eq!(dur2timeout(1), 1);
    assert_eq!(dur2timeout(1_000_000), 1);
    assert_eq!(dur2timeout(1_000_001), 2);
    assert_eq!(dur2timeout(2_500_000_000), 2500);
}

#[test]
fn timeout_saturates_to_infinite() {
    assert_eq!(dur2timeout(u32::MAX as u64 * 1_000_000), u32::MAX);
    assert_eq!(dur2timeout(u32::MAX as u64 * 1_000_000 + 1), INFINITE);
    assert_eq!(dur2timeout(u64::MAX), INFINITE);
}

#[test]
fn cancel_without_deadline_is_noop() {
    let mut w = WaitThreadState::new();
    w.receive(WaitMessage::Cancel);
    assert!(!w.is_armed());
    assert_eq!(w.next_action(5), WaitAction::WaitForMessage);
    w.receive(WaitMessage::Cancel);
    assert_eq!(w, WaitThreadState::new());
}

#[test]
fn deadline_sleeps_one_ms_short_then_fires() {
    let mut w = WaitThreadState::new();
    w.receive(WaitMessage::WaitUntil(10_000_000));
    assert!(w.is_armed());
    assert_eq!(w.next_action(0), WaitAction::Sleep(9));
    assert!(w.is_armed());
    assert_eq!(w.next_action(9_500_000), WaitAction::Sleep(0));
    assert_eq!(w.next_action(10_000_000), WaitAction::Fire);
    assert!(!w.is_armed());
    assert_eq!(w.next_action(10_000_001), WaitAction::WaitForMessage);
}

#[test]
fn newer_request_replaces_older() {
    let mut w = WaitThreadState::new();
    w.receive(WaitMessage::WaitUntil(100));
    w.receive(WaitMessage::WaitUntil(5_000_000));
    assert_eq!(w.wait_until, Some(5_000_000));
    w.receive(WaitMessage::Other);
    assert_eq!(w.wait_until, Some(5_000_000));
    w.receive(WaitMessage::Cancel);
    assert_eq!(w.wait_until, None);
}

#[test]
fn timed_out_fires_once() {
    let mut w = WaitThreadState::new();
    w.receive(WaitMessage::WaitUntil(3_000_000));
    assert_eq!(w.timed_out(), WaitAction::Fire);
    assert_eq!(w.timed_out(), WaitAction::WaitForMessage);
}
