//! The Worker's reaction to radio traffic from the Brain: every valid frame
//! re-arms the motors, motor-speed frames set the speeds, emergency stops
//! disable the motors, and a silence of `WORKER_TIMEOUT_MS` trips the
//! dead-man's switch.  The receive loop with its deadline is the caller's.
use vstd::prelude::*;

use crate::abi::worker::{lemma_motor_speed_frame_roundtrip, motor_speed_decode, motor_speed_frame, worker_decode, WorkerPacket};
use crate::abi::worker_cmd;
use crate::worker::motors::{lemma_packed_command_roundtrip, packed_command, unpacked_command, MotorState};

verus! {

/// Act on one frame from the Brain: a motor-speed frame with a complete
/// payload stores its speeds; an emergency stop disables the motors (and
/// zeroes the command); anything else, including undecodable frames, leaves
/// the motors as they were.
pub fn handle_packet(motors: &mut MotorState, data: &[u8])
    ensures
        match worker_decode(data@) {
            Some((c, p)) => if c == worker_cmd::MOTOR_SPEED {
                match motor_speed_decode(p) {
                    Some((l, r)) => final(motors).command == packed_command(l, r) && final(motors).enabled == old(motors).enabled,
                    None => *final(motors) == *old(motors),
                }
            } else if c == worker_cmd::EMERGENCY_STOP {
                final(motors).enabled == 0 && final(motors).command == 0
            } else {
                *final(motors) == *old(motors)
            },
            None => *final(motors) == *old(motors),
        },
{
    let (cmd_id, payload) = match WorkerPacket::decode(data) {
        Some(d) => d,
        None => {
            return;
        },
    };
    if cmd_id == worker_cmd::MOTOR_SPEED {
        match WorkerPacket::parse_motor_speed(payload) {
            Some((left, right)) => motors.store_motor_command(left, right),
            None => {},
        }
    } else if cmd_id == worker_cmd::EMERGENCY_STOP {
        motors.set_motor_enabled(false);
    }
}

/// A frame arrived: the motors are re-enabled, then the frame is handled.
pub fn on_frame(motors: &mut MotorState, data: &[u8])
    ensures
        match worker_decode(data@) {
            Some((c, p)) => if c == worker_cmd::MOTOR_SPEED {
                match motor_speed_decode(p) {
                    Some((l, r)) => final(motors).command == packed_command(l, r) && final(motors).enabled == 1,
                    None => final(motors).command == old(motors).command && final(motors).enabled == 1,
                }
            } else if c == worker_cmd::EMERGENCY_STOP {
                final(motors).enabled == 0 && final(motors).command == 0
            } else {
                final(motors).command == old(motors).command && final(motors).enabled == 1
            },
            None => final(motors).command == old(motors).command && final(motors).enabled == 1,
        },
{
    motors.set_motor_enabled(true);
    handle_packet(motors, data);
}

/// No frame for `WORKER_TIMEOUT_MS`: the dead-man's switch disables the
/// motors and zeroes the command.
pub fn on_timeout(motors: &mut MotorState)
    ensures
        final(motors).enabled == 0,
        final(motors).command == 0,
{
    motors.set_motor_enabled(false);
}


/// A motor-speed frame built by the Brain, as its router sends it in
/// Distributed mode, is handled by the Worker as a motor-speed command with
/// the same speeds, and loading the Worker's command then gives them back.
pub proof fn lemma_distributed_intent_reaches_worker(left: i16, right: i16)
    ensures
        worker_decode(motor_speed_frame(left, right)) matches Some((c, p)) && c == worker_cmd::MOTOR_SPEED
            && motor_speed_decode(p) == Some((left, right)),
        unpacked_command(packed_command(left, right)) == (left, right),
{
    lemma_motor_speed_frame_roundtrip(left, right);
    lemma_packed_command_roundtrip(left, right);
}

} // verus!
