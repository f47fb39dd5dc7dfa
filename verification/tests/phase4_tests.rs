//! Motor command tests of the mock host.
use sandos::abi::{status, ImuReading, MAX_MOTOR_SPEED};
use sandos::mock_host::MockHost;

#[test]
fn motor_speeds_default_to_zero() {
    let host = MockHost::default();
    assert_eq!(host.motor_left_speed, 0);
    assert_eq!(host.motor_right_speed, 0);
}

#[test]
fn motors_enabled_by_default() {
    let host = MockHost::default();
    assert!(host.motors_enabled);
}

#[test]
fn set_motor_speed_stores_speeds() {
    let mut host = MockHost::default();
    let result = host.set_motor_speed(100, -150);
    assert_eq!(result, status::OK);
    assert_eq!(host.motor_left_speed, 100);
    assert_eq!(host.motor_right_speed, -150);
}

#[test]
fn set_motor_speed_max_values_accepted() {
    let mut host = MockHost::default();
    assert_eq!(
        host.set_motor_speed(MAX_MOTOR_SPEED, MAX_MOTOR_SPEED),
        status::OK
    );
    assert_eq!(host.motor_left_speed, MAX_MOTOR_SPEED);
    assert_eq!(host.motor_right_speed, MAX_MOTOR_SPEED);
}

#[test]
fn set_motor_speed_min_values_accepted() {
    let mut host = MockHost::default();
    assert_eq!(
        host.set_motor_speed(-MAX_MOTOR_SPEED, -MAX_MOTOR_SPEED),
        status::OK
    );
    assert_eq!(host.motor_left_speed, -MAX_MOTOR_SPEED);
    assert_eq!(host.motor_right_speed, -MAX_MOTOR_SPEED);
}

#[test]
fn set_motor_speed_zero_values_accepted() {
    let mut host = MockHost::default();
    // Start with non-zero speeds.
    host.set_motor_speed(50, -50);
    // Emergency stop.
    let result = host.set_motor_speed(0, 0);
    assert_eq!(result, status::OK);
    assert_eq!(host.motor_left_speed, 0);
    assert_eq!(host.motor_right_speed, 0);
}

#[test]
fn set_motor_speed_left_exceeds_max_returns_error() {
    let mut host = MockHost::default();
    let result = host.set_motor_speed(MAX_MOTOR_SPEED + 1, 0);
    assert_eq!(result, status::ERR_INVALID_ARG);
    // Speeds must not have changed.
    assert_eq!(host.motor_left_speed, 0);
    assert_eq!(host.motor_right_speed, 0);
}

#[test]
fn set_motor_speed_right_exceeds_min_returns_error() {
    let mut host = MockHost::default();
    let result = host.set_motor_speed(0, -(MAX_MOTOR_SPEED + 1));
    assert_eq!(result, status::ERR_INVALID_ARG);
    assert_eq!(host.motor_left_speed, 0);
    assert_eq!(host.motor_right_speed, 0);
}

#[test]
fn set_motor_speed_blocked_when_motors_disabled() {
    let mut host = MockHost::default();
    host.motors_enabled = false;
    let result = host.set_motor_speed(100, 100);
    assert_eq!(result, status::ERR_BUSY);
    // Speeds must remain unchanged (0).
    assert_eq!(host.motor_left_speed, 0);
    assert_eq!(host.motor_right_speed, 0);
}

#[test]
fn set_motor_speed_accepted_after_motors_re_enabled() {
    let mut host = MockHost::default();
    host.motors_enabled = false;
    host.set_motor_speed(100, 100); // rejected
    host.motors_enabled = true;
    let result = host.set_motor_speed(80, -80); // should be accepted now
    assert_eq!(result, status::OK);
    assert_eq!(host.motor_left_speed, 80);
    assert_eq!(host.motor_right_speed, -80);
}

#[test]
fn watchdog_feed_count_starts_at_zero() {
    let host = MockHost::default();
    assert_eq!(host.watchdog_feed_count, 0);
}

#[test]
fn watchdog_fed_on_successful_motor_command() {
    let mut host = MockHost::default();
    host.set_motor_speed(50, 50);
    assert_eq!(host.watchdog_feed_count, 1);
}

#[test]
fn watchdog_not_fed_on_invalid_motor_command() {
    let mut host = MockHost::default();
    host.set_motor_speed(1000, 0); // Invalid — exceeds MAX_MOTOR_SPEED
    assert_eq!(host.watchdog_feed_count, 0);
}

#[test]
fn watchdog_not_fed_when_motors_disabled() {
    let mut host = MockHost::default();
    host.motors_enabled = false;
    host.set_motor_speed(50, 50); // Rejected — safe shutdown active
    assert_eq!(host.watchdog_feed_count, 0);
}

#[test]
fn watchdog_feed_count_accumulates_over_multiple_commands() {
    let mut host = MockHost::default();
    for _ in 0..5 {
        host.set_motor_speed(10, -10);
    }
    assert_eq!(host.watchdog_feed_count, 5);
}
