//! Command ids of the Brain → Worker link.
use vstd::prelude::*;

verus! {

/// Motor speeds: payload = two little-endian `i16` (left, right).
pub const MOTOR_SPEED: u8 = 0x20;

/// Emergency stop: zero and disable the motors.
pub const EMERGENCY_STOP: u8 = 0x21;

/// Keep-alive with no payload; only re-arms the Worker's dead-man's switch.
pub const HEARTBEAT: u8 = 0x22;

} // verus!
