//! The sample Wasm guest's logic: which handler a radio command runs, the
//! motor commands it derives from the IMU and from the local inference
//! result, and the telemetry payloads it builds in its linear memory.
use vstd::prelude::*;

use crate::abi::cmd;
use crate::wire::{i16_bits, i16_to_bits, i32_bits, i32_to_bits, u16_le, u32_le, u64_le};

verus! {

/// Nominal Core 1 loop period reported in telemetry, in microseconds.
pub const NOMINAL_LOOP_TIME_US: u32 = 2_000;

/// The guest skips a telemetry emission while the host queue holds at least
/// this many packets.
pub const TELEMETRY_QUEUE_HIGH_WATER_MARK: i32 = 28;

/// Minimum confidence (percent) for the guest to act on a local inference.
pub const INFERENCE_CONFIDENCE_THRESHOLD: i32 = 60;

// ── Little-endian writers ────────────────────────────────────────────────────

/// `buf` with `bytes` written at `offset`.
pub open spec fn written(buf: Seq<u8>, offset: int, bytes: Seq<u8>) -> Seq<u8> {
    buf.subrange(0, offset) + bytes + buf.subrange(offset + bytes.len(), buf.len() as int)
}

/// Write a `u32` at `offset`, little-endian.
pub fn write_u32_le(buf: &mut [u8], offset: usize, val: u32)
    requires
        offset + 4 <= old(buf)@.len(),
    ensures
        final(buf)@ == written(old(buf)@, offset as int, u32_le(val)),
{
    buf[offset] = (val % 256) as u8;
    buf[offset + 1] = ((val / 256) % 256) as u8;
    buf[offset + 2] = ((val / 0x1_0000) % 256) as u8;
    buf[offset + 3] = (val / 0x100_0000) as u8;
    assert(buf@ =~= written(old(buf)@, offset as int, u32_le(val)));
}

/// Write a `u64` at `offset`, little-endian.
pub fn write_u64_le(buf: &mut [u8], offset: usize, val: u64)
    requires
        offset + 8 <= old(buf)@.len(),
    ensures
        final(buf)@ == written(old(buf)@, offset as int, u64_le(val)),
{
    let n = buf.len();
    assert(offset + 8 <= n);
    write_u32_le(buf, offset, (val % 0x1_0000_0000) as u32);
    write_u32_le(buf, offset + 4, (val / 0x1_0000_0000) as u32);
    assert(buf@ =~= written(old(buf)@, offset as int, u64_le(val)));
}

/// Write an `i32` at `offset` (its two's-complement bits, little-endian).
pub fn write_i32_le(buf: &mut [u8], offset: usize, val: i32)
    requires
        offset + 4 <= old(buf)@.len(),
    ensures
        final(buf)@ == written(old(buf)@, offset as int, u32_le(i32_bits(val))),
{
    write_u32_le(buf, offset, i32_to_bits(val));
}

/// Write an `i16` at `offset` (its two's-complement bits, little-endian).
pub fn write_i16_le(buf: &mut [u8], offset: usize, val: i16)
    requires
        offset + 2 <= old(buf)@.len(),
    ensures
        final(buf)@ == written(old(buf)@, offset as int, u16_le(i16_bits(val))),
{
    let u = i16_to_bits(val);
    buf[offset] = (u % 256) as u8;
    buf[offset + 1] = (u / 256) as u8;
    assert(buf@ =~= written(old(buf)@, offset as int, u16_le(i16_bits(val))));
}

// ── Command dispatch ─────────────────────────────────────────────────────────

/// The guest's handlers for radio commands.
#[derive(Debug, Clone, Copy, PartialEq, Eq, Structural)]
pub enum GuestHandler {
    ToggleLed,
    DrawHappyEye,
    WriteGreeting,
    ClearDisplay,
    Balance,
    EmergencyStop,
    EmitImuTelemetry,
    EmitOdomTelemetry,
    QueryLocalInference,
}

/// The handler a command id selects (by its low byte), if any.
pub open spec fn handler_of(cmd_id: i32) -> Option<GuestHandler> {
    let c = (i32_bits(cmd_id) % 256) as u8;
    if c == cmd::TOGGLE_LED {
        Some(GuestHandler::ToggleLed)
    } else if c == cmd::DRAW_EYE {
        Some(GuestHandler::DrawHappyEye)
    } else if c == cmd::WRITE_TEXT {
        Some(GuestHandler::WriteGreeting)
    } else if c == cmd::CLEAR_DISPLAY {
        Some(GuestHandler::ClearDisplay)
    } else if c == cmd::SET_MOTOR_SPEED {
        Some(GuestHandler::Balance)
    } else if c == cmd::EMERGENCY_STOP {
        Some(GuestHandler::EmergencyStop)
    } else if c == cmd::EMIT_IMU_TELEMETRY {
        Some(GuestHandler::EmitImuTelemetry)
    } else if c == cmd::EMIT_ODOM_TELEMETRY {
        Some(GuestHandler::EmitOdomTelemetry)
    } else if c == cmd::QUERY_LOCAL_INFERENCE {
        Some(GuestHandler::QueryLocalInference)
    } else {
        None
    }
}

/// Select the handler of a command (`None`: unknown, the guest answers 1).
pub fn handler_for(cmd_id: i32) -> (h: Option<GuestHandler>)
    ensures
        h == handler_of(cmd_id),
{
    let c = (i32_to_bits(cmd_id) % 256) as u8;
    if c == cmd::TOGGLE_LED {
        Some(GuestHandler::ToggleLed)
    } else if c == cmd::DRAW_EYE {
        Some(GuestHandler::DrawHappyEye)
    } else if c == cmd::WRITE_TEXT {
        Some(GuestHandler::WriteGreeting)
    } else if c == cmd::CLEAR_DISPLAY {
        Some(GuestHandler::ClearDisplay)
    } else if c == cmd::SET_MOTOR_SPEED {
        Some(GuestHandler::Balance)
    } else if c == cmd::EMERGENCY_STOP {
        Some(GuestHandler::EmergencyStop)
    } else if c == cmd::EMIT_IMU_TELEMETRY {
        Some(GuestHandler::EmitImuTelemetry)
    } else if c == cmd::EMIT_ODOM_TELEMETRY {
        Some(GuestHandler::EmitOdomTelemetry)
    } else if c == cmd::QUERY_LOCAL_INFERENCE {
        Some(GuestHandler::QueryLocalInference)
    } else {
        None
    }
}

/// The command id whose handler `h` is: each handler is named after the
/// command that runs it.
pub open spec fn command_of(h: GuestHandler) -> u8 {
    match h {
        GuestHandler::ToggleLed => cmd::TOGGLE_LED,
        GuestHandler::DrawHappyEye => cmd::DRAW_EYE,
        GuestHandler::WriteGreeting => cmd::WRITE_TEXT,
        GuestHandler::ClearDisplay => cmd::CLEAR_DISPLAY,
        GuestHandler::Balance => cmd::SET_MOTOR_SPEED,
        GuestHandler::EmergencyStop => cmd::EMERGENCY_STOP,
        GuestHandler::EmitImuTelemetry => cmd::EMIT_IMU_TELEMETRY,
        GuestHandler::EmitOdomTelemetry => cmd::EMIT_ODOM_TELEMETRY,
        GuestHandler::QueryLocalInference => cmd::QUERY_LOCAL_INFERENCE,
    }
}

/// A command selects the handler `h` exactly when its low byte is the id of
/// the command `h` is named after: `EMERGENCY_STOP` (0x21) runs the
/// emergency stop, `SET_MOTOR_SPEED` the balance handler, and so on.
pub proof fn lemma_handler_named_after_command(cmd_id: i32, h: GuestHandler)
    ensures
        handler_of(cmd_id) == Some(h) <==> i32_bits(cmd_id) % 256 == command_of(h) as int,
{
}

/// Two commands that select the same handler carry the same low byte: no
/// two known command ids share a handler.
pub proof fn lemma_handlers_distinct(a: i32, b: i32)
    requires
        handler_of(a) is Some,
        handler_of(a) == handler_of(b),
    ensures
        i32_bits(a) % 256 == i32_bits(b) % 256,
{
    lemma_handler_named_after_command(a, handler_of(a)->0);
    lemma_handler_named_after_command(b, handler_of(a)->0);
}

// ── Motor decisions ──────────────────────────────────────────────────────────

/// `a / b` rounded toward zero, as Rust's `/` computes it.
pub open spec fn trunc_div(a: int, b: int) -> int {
    if a >= 0 { a / b } else { -((-a) / b) }
}

/// The balance handler's motor duty for a pitch: whole degrees, clamped to
/// `±255`.
pub fn balance_duty(pitch_millideg: i32) -> (d: i32)
    ensures
        d == (if trunc_div(pitch_millideg as int, 1000) < -255 { -255 } else if trunc_div(
            pitch_millideg as int,
            1000,
        ) > 255 { 255 } else { trunc_div(pitch_millideg as int, 1000) }),
{
    let q: i64 = if pitch_millideg >= 0 {
        (pitch_millideg as i64) / 1000
    } else {
        -((-(pitch_millideg as i64)) / 1000)
    };
    if q < -255 {
        -255
    } else if q > 255 {
        255
    } else {
        q as i32
    }
}

/// The motor speeds the guest commands from a local inference result (the
/// three words `active`, `top_class`, `confidence`): `None` unless it is
/// active with a confidence of at least 60; then class 1 forward, 2 left,
/// 3 right, 4 reverse, any other class stop.
pub fn inference_drive(active: i32, top_class: i32, confidence: i32) -> (m: Option<(i32, i32)>)
    ensures
        !(active != 0 && confidence >= INFERENCE_CONFIDENCE_THRESHOLD) ==> m is None,
        active != 0 && confidence >= INFERENCE_CONFIDENCE_THRESHOLD ==> m == Some(
            if top_class == 1 {
                (100i32, 100i32)
            } else if top_class == 2 {
                (-100i32, 100i32)
            } else if top_class == 3 {
                (100i32, -100i32)
            } else if top_class == 4 {
                (-100i32, -100i32)
            } else {
                (0i32, 0i32)
            },
        ),
{
    if active != 0 && confidence >= INFERENCE_CONFIDENCE_THRESHOLD {
        let speeds = match top_class {
            1 => (100, 100),
            2 => (-100, 100),
            3 => (100, -100),
            4 => (-100, -100),
            _ => (0, 0),
        };
        Some(speeds)
    } else {
        None
    }
}

/// Whether the guest emits telemetry with `queue_len` packets waiting.
pub fn telemetry_has_room(queue_len: i32) -> (b: bool)
    ensures
        b == (queue_len < TELEMETRY_QUEUE_HIGH_WATER_MARK),
{
    queue_len < TELEMETRY_QUEUE_HIGH_WATER_MARK
}

// ── Telemetry payloads ───────────────────────────────────────────────────────

/// The 36-byte IMU record the guest emits: sequence, timestamp, nominal loop
/// time, pitch and roll; yaw rate and accelerations are zero.
pub open spec fn guest_imu_payload(seq: u32, uptime_us: u64, pitch: i32, roll: i32) -> Seq<u8> {
    u32_le(seq) + u64_le(uptime_us) + u32_le(NOMINAL_LOOP_TIME_US) + u32_le(i32_bits(pitch))
        + u32_le(i32_bits(roll)) + Seq::new(12, |i: int| 0u8)
}

/// The 20-byte odometry record the guest emits: sequence, timestamp,
/// nominal loop time, and zero speeds.
pub open spec fn guest_odom_payload(seq: u32, uptime_us: u64) -> Seq<u8> {
    u32_le(seq) + u64_le(uptime_us) + u32_le(NOMINAL_LOOP_TIME_US) + u16_le(0) + u16_le(0)
}

/// Build the IMU telemetry record.
pub fn imu_telemetry_payload(seq: u32, uptime_us: u64, pitch: i32, roll: i32) -> (buf: [u8; 36])
    ensures
        buf@ == guest_imu_payload(seq, uptime_us, pitch, roll),
{
    let mut buf = [0u8; 36];
    write_u32_le(&mut buf, 0, seq);
    write_u64_le(&mut buf, 4, uptime_us);
    write_u32_le(&mut buf, 12, NOMINAL_LOOP_TIME_US);
    write_i32_le(&mut buf, 16, pitch);
    write_i32_le(&mut buf, 20, roll);
    assert(buf@ =~= guest_imu_payload(seq, uptime_us, pitch, roll));
    buf
}

/// Build the odometry telemetry record.
pub fn odom_telemetry_payload(seq: u32, uptime_us: u64) -> (buf: [u8; 20])
    ensures
        buf@ == guest_odom_payload(seq, uptime_us),
{
    let mut buf = [0u8; 20];
    write_u32_le(&mut buf, 0, seq);
    write_u64_le(&mut buf, 4, uptime_us);
    write_u32_le(&mut buf, 12, NOMINAL_LOOP_TIME_US);
    write_i16_le(&mut buf, 16, 0);
    write_i16_le(&mut buf, 18, 0);
    assert(buf@ =~= guest_odom_payload(seq, uptime_us));
    buf
}

} // verus!
