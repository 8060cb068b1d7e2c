//! Tests for the countdown timer and the pin-level logic.

use std::time::Instant;

use spoof_detect::pin::input_is_high;
use spoof_detect::pin::output_level;
use spoof_detect::timer::timer_expired;
use spoof_detect::timer::SysTimer;
use spoof_detect::timer::TimerPoll;

/// Ensure that a 100 ms delay takes at least 100 ms,
/// but not longer than 500 ms.
#[test]
fn test_delay() {
    let mut timer = SysTimer::new();
    let before = Instant::now();
    timer.start(100);
    while timer.wait() == TimerPoll::Pending {}
    let after = Instant::now();
    let duration_ms = (after - before).as_millis();
    assert!(duration_ms >= 100);
    assert!(duration_ms < 500);
}

/// Ensure that the timer is periodic.
#[test]
fn test_periodic() {
    let mut timer = SysTimer::new();
    let before = Instant::now();
    timer.start(100);
    while timer.wait() == TimerPoll::Pending {}
    let after1 = Instant::now();
    let duration_ms_1 = (after1 - before).as_millis();
    assert!(duration_ms_1 >= 98);
    assert!(duration_ms_1 < 500);
    while timer.wait() == TimerPoll::Pending {}
    let after2 = Instant::now();
    let duration_ms_2 = (after2 - after1).as_millis();
    assert!(duration_ms_2 >= 98);
    assert!(duration_ms_2 < 500);
}

#[test]
fn fresh_timer_is_ready_at_once() {
    // The duration starts at zero, so the first poll already reads ready.
    let mut timer = SysTimer::new();
    assert_eq!(timer.wait(), TimerPoll::Ready);
}

#[test]
fn expiry_decision_is_a_plain_comparison() {
    assert!(timer_expired(100, 100));
    assert!(timer_expired(101, 100));
    assert!(!timer_expired(99, 100));
    assert!(timer_expired(0, 0));
    assert!(!timer_expired(0, 1));
}

#[test]
fn output_level_inverts_only_when_active_low() {
    assert_eq!(output_level(false, false), 0);
    assert_eq!(output_level(false, true), 1);
    assert_eq!(output_level(true, false), 1);
    assert_eq!(output_level(true, true), 0);
}

#[test]
fn input_level_inverts_only_when_active_low() {
    assert!(!input_is_high(false, 0));
    assert!(input_is_high(false, 1));
    assert!(input_is_high(false, 7));
    assert!(input_is_high(true, 0));
    assert!(!input_is_high(true, 1));
}
