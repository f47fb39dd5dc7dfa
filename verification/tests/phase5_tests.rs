//! Message bus, routing and dead-man's switch tests of the mock host.
use sandos::abi::{status, MovementIntent, RoutingMode, DEAD_MANS_SWITCH_MS, MAX_MOTOR_SPEED};
use sandos::mock_host::MockHost;

#[test]
fn set_motor_speed_publishes_intent_to_bus() {
    let mut host = MockHost::default();
    host.set_motor_speed(100, -50);
    assert_eq!(host.intent_log.len(), 1);
    assert_eq!(host.intent_log[0], MovementIntent::new(100, -50));
}

#[test]
fn multiple_motor_commands_accumulate_in_intent_log() {
    let mut host = MockHost::default();
    host.set_motor_speed(50, 50);
    host.set_motor_speed(100, -100);
    host.set_motor_speed(0, 0);
    assert_eq!(host.intent_log.len(), 3);
    assert_eq!(host.intent_log[0], MovementIntent::new(50, 50));
    assert_eq!(host.intent_log[1], MovementIntent::new(100, -100));
    assert_eq!(host.intent_log[2], MovementIntent::zero());
}

#[test]
fn invalid_motor_command_does_not_publish_intent() {
    let mut host = MockHost::default();
    host.set_motor_speed(MAX_MOTOR_SPEED + 1, 0); // Invalid
    assert!(host.intent_log.is_empty());
}

#[test]
fn motor_command_blocked_when_disabled_does_not_publish_intent() {
    let mut host = MockHost::default();
    host.motors_enabled = false;
    host.set_motor_speed(100, 100); // Blocked
    assert!(host.intent_log.is_empty());
}

#[test]
fn single_board_mode_is_default() {
    let host = MockHost::default();
    assert_eq!(host.routing_mode, RoutingMode::SingleBoard);
}

#[test]
fn single_board_mode_updates_local_motor_speeds() {
    let mut host = MockHost::default();
    // Explicitly set mode (even though it is the default) for clarity.
    host.routing_mode = RoutingMode::SingleBoard;
    host.set_motor_speed(120, -80);
    assert_eq!(host.motor_left_speed, 120);
    assert_eq!(host.motor_right_speed, -80);
}

#[test]
fn single_board_mode_does_not_populate_distributed_intents() {
    let mut host = MockHost::default();
    host.routing_mode = RoutingMode::SingleBoard;
    host.set_motor_speed(120, -80);
    assert!(host.distributed_intents.is_empty());
}

#[test]
fn distributed_mode_routes_to_distributed_intents() {
    let mut host = MockHost::default();
    host.routing_mode = RoutingMode::Distributed;
    host.set_motor_speed(120, -80);
    assert_eq!(host.distributed_intents.len(), 1);
    assert_eq!(host.distributed_intents[0], MovementIntent::new(120, -80));
}

#[test]
fn distributed_mode_does_not_update_local_motor_speeds() {
    let mut host = MockHost::default();
    host.routing_mode = RoutingMode::Distributed;
    host.set_motor_speed(120, -80);
    // Local speeds remain at their initial values.
    assert_eq!(host.motor_left_speed, 0);
    assert_eq!(host.motor_right_speed, 0);
}

#[test]
fn distributed_mode_still_logs_intent() {
    let mut host = MockHost::default();
    host.routing_mode = RoutingMode::Distributed;
    host.set_motor_speed(50, 50);
    // The intent_log captures every published intent regardless of mode.
    assert_eq!(host.intent_log.len(), 1);
    assert_eq!(host.distributed_intents.len(), 1);
}

#[test]
fn switching_from_distributed_to_single_board_updates_local_speeds() {
    let mut host = MockHost::default();
    host.routing_mode = RoutingMode::Distributed;
    host.set_motor_speed(100, 100);
    assert_eq!(
        host.motor_left_speed, 0,
        "distributed mode must not update local speeds"
    );

    // Switch back to Single-Board.
    host.routing_mode = RoutingMode::SingleBoard;
    host.set_motor_speed(75, -75);
    assert_eq!(host.motor_left_speed, 75);
    assert_eq!(host.motor_right_speed, -75);
}

#[test]
fn dead_mans_switch_inactive_by_default() {
    let host = MockHost::default();
    assert!(!host.dead_mans_active);
}

#[test]
fn dead_mans_switch_does_not_trip_before_timeout() {
    let mut host = MockHost::default();
    host.simulated_uptime_ms = 0;
    host.set_motor_speed(50, 50); // intent at t=0

    // Check at exactly the timeout boundary: gap = 50ms, condition is `> 50`,
    // so exactly 50ms must NOT trip the switch (per spec: "intents for >50ms").
    host.check_dead_mans_switch(DEAD_MANS_SWITCH_MS);
    assert!(!host.dead_mans_active);
}

#[test]
fn dead_mans_switch_trips_after_timeout() {
    let mut host = MockHost::default();
    host.simulated_uptime_ms = 0;
    host.set_motor_speed(50, 50); // intent at t=0

    // Check 51 ms later — switch should trip.
    host.check_dead_mans_switch(DEAD_MANS_SWITCH_MS + 1);
    assert!(host.dead_mans_active);
}

#[test]
fn dead_mans_switch_zeroes_motors_on_trip() {
    let mut host = MockHost::default();
    host.simulated_uptime_ms = 0;
    host.set_motor_speed(200, -100); // set non-zero speeds

    // Simulate 51 ms elapsing without a new intent.
    host.check_dead_mans_switch(DEAD_MANS_SWITCH_MS + 1);

    assert!(host.dead_mans_active);
    assert_eq!(host.motor_left_speed, 0, "left motor must be zeroed by DMS");
    assert_eq!(
        host.motor_right_speed, 0,
        "right motor must be zeroed by DMS"
    );
}

#[test]
fn dead_mans_switch_clears_after_fresh_intent() {
    let mut host = MockHost::default();
    // Trip the switch first.
    host.simulated_uptime_ms = 0;
    host.set_motor_speed(100, 100);
    host.check_dead_mans_switch(DEAD_MANS_SWITCH_MS + 1);
    assert!(host.dead_mans_active);

    // Receive a fresh intent — DMS resets.
    host.simulated_uptime_ms = DEAD_MANS_SWITCH_MS + 1; // advance clock
    host.set_motor_speed(50, 50);
    assert!(!host.dead_mans_active);
}

#[test]
fn dead_mans_switch_trips_without_any_prior_intent() {
    let mut host = MockHost::default();
    // No intent has ever been published; last_intent_ms defaults to 0.
    // If current time is beyond the timeout, the switch should trip.
    host.check_dead_mans_switch(DEAD_MANS_SWITCH_MS + 1);
    assert!(host.dead_mans_active);
}

#[test]
fn last_intent_ms_updated_by_set_motor_speed() {
    let mut host = MockHost::default();
    host.simulated_uptime_ms = 42;
    host.set_motor_speed(30, 30);
    assert_eq!(host.last_intent_ms, 42);
}
