//! Well-known command ids carried in `EspNowCommand::cmd_id`.
use vstd::prelude::*;

verus! {

/// Toggle the onboard LED.
pub const TOGGLE_LED: u8 = 0x01;

/// Load a new Wasm binary from the PC.
pub const LOAD_WASM: u8 = 0x02;

/// Draw a robot expression on the display.
pub const DRAW_EYE: u8 = 0x10;

/// Display an LLM text response on screen.
pub const WRITE_TEXT: u8 = 0x11;

/// Flush / clear the display.
pub const CLEAR_DISPLAY: u8 = 0x12;

/// Set motor speeds: payload = two little-endian `i16` (left, right).
pub const SET_MOTOR_SPEED: u8 = 0x20;

/// Emergency stop — zero all motors immediately.
pub const EMERGENCY_STOP: u8 = 0x21;

/// Emit a structured IMU telemetry packet.
pub const EMIT_IMU_TELEMETRY: u8 = 0x30;

/// Emit a structured odometry telemetry packet.
pub const EMIT_ODOM_TELEMETRY: u8 = 0x31;

/// Query the local inference engine.
pub const QUERY_LOCAL_INFERENCE: u8 = 0x40;

/// OTA: declare the total size of the incoming binary (`[size: u32 LE]`).
pub const OTA_BEGIN: u8 = 0x50;

/// OTA: one chunk of the binary (`[offset: u32 LE][data …]`).
pub const OTA_CHUNK: u8 = 0x51;

/// OTA: verify the staged binary (`[expected_crc32: u32 LE]`).
pub const OTA_FINALIZE: u8 = 0x52;

} // verus!
