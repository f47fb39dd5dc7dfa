//! The contract between the Wasm sandbox (guest) and the host OS.
//!
//! The guest cannot touch hardware; every hardware interaction is a typed
//! ABI call that the host validates before executing it.  An invalid
//! argument (an unknown expression, a pointer outside the guest's memory)
//! yields an error code and the request is ignored.
use vstd::prelude::*;

pub mod cdr;
pub mod cmd;
pub mod crc;
pub mod records;
pub mod status;
pub mod telemetry;
pub mod ulp_mem;
pub mod worker;
pub mod worker_cmd;

pub use crate::abi::cdr::CdrSerializer;
pub use crate::abi::crc::crc32;
pub use crate::abi::records::{InferenceResult, OtaState, OtaStatus};
pub use crate::abi::telemetry::{ImuTelemetry, OdometryTelemetry, TelemetryPacket};
pub use crate::abi::worker::WorkerPacket;

use crate::wire::{i32_bits, i32_from_bits, i32_of_bits, i32_to_bits};

verus! {

// ── ABI function names ───────────────────────────────────────────────────────

/// Module name used for all host imports inside the Wasm binary.
pub const HOST_MODULE: &'static str = "env";

pub const FN_TOGGLE_LED: &'static str = "host_toggle_led";

pub const FN_GET_UPTIME_MS: &'static str = "host_get_uptime_ms";

pub const FN_DEBUG_LOG: &'static str = "host_debug_log";

pub const FN_DRAW_EYE: &'static str = "host_draw_eye";

pub const FN_WRITE_TEXT: &'static str = "host_write_text";

pub const FN_SET_BRIGHTNESS: &'static str = "host_set_brightness";

pub const FN_START_AUDIO: &'static str = "host_start_audio_capture";

pub const FN_STOP_AUDIO: &'static str = "host_stop_audio_capture";

pub const FN_GET_AUDIO_AVAIL: &'static str = "host_get_audio_avail";

pub const FN_READ_AUDIO: &'static str = "host_read_audio";

pub const FN_GET_PITCH_ROLL: &'static str = "host_get_pitch_roll";

pub const FN_SET_MOTOR_SPEED: &'static str = "host_set_motor_speed";

pub const FN_GET_ROUTING_MODE: &'static str = "host_get_routing_mode";

pub const FN_EMIT_IMU_TELEMETRY: &'static str = "host_emit_imu_telemetry";

pub const FN_EMIT_ODOM_TELEMETRY: &'static str = "host_emit_odom_telemetry";

pub const FN_GET_TELEMETRY_QUEUE_LEN: &'static str = "host_get_telemetry_queue_len";

pub const FN_GET_LOCAL_INFERENCE: &'static str = "host_get_local_inference";

pub const FN_GET_OTA_STATUS: &'static str = "host_get_ota_status";

// ── Constants ────────────────────────────────────────────────────────────────

/// Dead-man's switch timeout in milliseconds: with no valid movement intent
/// for longer than this, all motor control loops are zeroed.
pub const DEAD_MANS_SWITCH_MS: u64 = 50;

/// Silence on the Brain → Worker link after which the Worker stops its motors.
pub const WORKER_TIMEOUT_MS: u64 = 50;

/// Radio silence after which the link counts as lost.
pub const RADIO_SILENCE_THRESHOLD_MS: u64 = 2000;

/// Maximum payload size for an ESP-NOW packet (ESP32-S3 hardware limit).
pub const ESPNOW_MAX_PAYLOAD: usize = 250;

/// Maximum byte length accepted by `host_write_text`.
pub const MAX_TEXT_BYTES: u32 = 256;

/// Maximum display brightness value accepted by `host_set_brightness`.
pub const MAX_BRIGHTNESS: i32 = 255;

/// Maximum audio chunk size for a single `host_read_audio` call (bytes).
pub const MAX_AUDIO_READ: u32 = 1024;

/// Maximum audio chunk size for a single `host_play_audio` call (bytes).
pub const MAX_AUDIO_PLAY: u32 = 1024;

/// Maximum motor speed magnitude accepted by `host_set_motor_speed`.
pub const MAX_MOTOR_SPEED: i32 = 255;

/// Wasm linear memory page size (64 KiB).
pub const WASM_PAGE_SIZE: u32 = 65_536;

/// Capacity of the telemetry TX queue.
pub const TELEMETRY_TX_CAPACITY: usize = 32;

/// Core 1 ticks skipped between two emitted telemetry packets.
pub const TELEMETRY_DECIMATION: u64 = 5;

/// Number of audio samples one inference pass looks at.
pub const INFERENCE_TENSOR_SIZE: usize = 256;

/// Serialized size of an `InferenceResult` (three `i32` LE words).
pub const INFERENCE_RESULT_SIZE: u32 = 12;

/// Serialized size of an `OtaStatus` (four `u32` LE words).
pub const OTA_STATUS_SIZE: u32 = 16;

/// Largest Wasm binary an OTA session accepts (bytes).
pub const OTA_MAX_BINARY_SIZE: usize = 262_144;

// ── Eye expressions ──────────────────────────────────────────────────────────

/// Eye expression variants for `host_draw_eye`.
///
/// The declaration order fixes the ABI discriminants 0..=6; do not reorder.
#[derive(Debug, Clone, Copy, PartialEq, Eq, Structural)]
pub enum EyeExpression {
    Neutral,
    Happy,
    Sad,
    Angry,
    Surprised,
    Thinking,
    Blink,
}

/// The ABI code of an expression (its position in the declaration).
pub open spec fn eye_code(e: EyeExpression) -> int {
    match e {
        EyeExpression::Neutral => 0,
        EyeExpression::Happy => 1,
        EyeExpression::Sad => 2,
        EyeExpression::Angry => 3,
        EyeExpression::Surprised => 4,
        EyeExpression::Thinking => 5,
        EyeExpression::Blink => 6,
    }
}

impl EyeExpression {
    /// Parse from the raw `i32` ABI argument; `None` for unknown values, so
    /// that the host can answer `ERR_INVALID_ARG` instead of crashing.
    pub fn from_i32(v: i32) -> (r: Option<Self>)
        ensures
            r is Some <==> 0 <= v <= 6,
            r matches Some(e) ==> eye_code(e) == v,
    {
        match v {
            0 => Some(EyeExpression::Neutral),
            1 => Some(EyeExpression::Happy),
            2 => Some(EyeExpression::Sad),
            3 => Some(EyeExpression::Angry),
            4 => Some(EyeExpression::Surprised),
            5 => Some(EyeExpression::Thinking),
            6 => Some(EyeExpression::Blink),
            _ => None,
        }
    }
}

// ── ESP-NOW packet ───────────────────────────────────────────────────────────

/// A command packet received via ESP-NOW from the PC.
#[derive(Debug, Clone, Copy)]
pub struct EspNowCommand {
    /// Magic header; valid packets carry [`EspNowCommand::MAGIC`].
    pub magic: [u8; 2],
    /// Command identifier (see [`cmd`]).
    pub cmd_id: u8,
    /// Length of the payload that follows.
    pub payload_len: u8,
    /// Inline payload bytes (`ESPNOW_MAX_PAYLOAD - 4` of them).
    pub payload: [u8; 246],
}

impl EspNowCommand {
    /// The two-byte magic number that every valid SandOS packet starts with.
    pub const MAGIC: [u8; 2] = [0x5A, 0x4E];

    /// Returns `true` when the magic header is valid.
    pub fn is_valid(&self) -> (b: bool)
        ensures
            b <==> (self.magic@[0] == 0x5Au8 && self.magic@[1] == 0x4Eu8),
    {
        self.magic[0] == 0x5A && self.magic[1] == 0x4E
    }
}

// ── IMU reading ──────────────────────────────────────────────────────────────

/// A pitch/roll reading from the IMU, in millidegrees.
#[derive(Debug, Clone, Copy, PartialEq, Eq, Structural)]
pub struct ImuReading {
    /// Pitch angle in millidegrees (positive = nose up).
    pub pitch_millideg: i32,
    /// Roll angle in millidegrees (positive = right side down).
    pub roll_millideg: i32,
}

impl Default for ImuReading {
    fn default() -> (r: Self)
        ensures
            r.pitch_millideg == 0 && r.roll_millideg == 0,
    {
        ImuReading { pitch_millideg: 0, roll_millideg: 0 }
    }
}

/// The packed form of a reading: pitch bits in the high word, roll bits in
/// the low word.
pub open spec fn imu_packed(r: ImuReading) -> u64 {
    (i32_bits(r.pitch_millideg) * 0x1_0000_0000 + i32_bits(r.roll_millideg)) as u64
}

/// The reading whose packed form is `raw`.
pub open spec fn imu_unpacked(raw: u64) -> ImuReading {
    ImuReading {
        pitch_millideg: i32_from_bits((raw / 0x1_0000_0000) as u32),
        roll_millideg: i32_from_bits((raw % 0x1_0000_0000) as u32),
    }
}

impl ImuReading {
    /// Pack the reading into a single `u64` for atomic storage.
    pub fn encode(self) -> (raw: u64)
        ensures
            raw == imu_packed(self),
    {
        (i32_to_bits(self.pitch_millideg) as u64) * 0x1_0000_0000 + (i32_to_bits(
            self.roll_millideg,
        ) as u64)
    }

    /// Unpack a reading previously packed with [`ImuReading::encode`].
    pub fn decode(raw: u64) -> (r: Self)
        ensures
            r == imu_unpacked(raw),
    {
        ImuReading {
            pitch_millideg: i32_of_bits((raw / 0x1_0000_0000) as u32),
            roll_millideg: i32_of_bits((raw % 0x1_0000_0000) as u32),
        }
    }
}

/// Decoding an encoded reading gives the reading back.
pub proof fn lemma_imu_pack_roundtrip(r: ImuReading)
    ensures
        imu_unpacked(imu_packed(r)) == r,
{
    let hi = i32_bits(r.pitch_millideg);
    let lo = i32_bits(r.roll_millideg);
    assert((hi * 0x1_0000_0000 + lo) / 0x1_0000_0000 == hi) by (nonlinear_arith)
        requires
            0 <= lo < 0x1_0000_0000,
            0 <= hi < 0x1_0000_0000,
    ;
    assert((hi * 0x1_0000_0000 + lo) % 0x1_0000_0000 == lo) by (nonlinear_arith)
        requires
            0 <= lo < 0x1_0000_0000,
            0 <= hi < 0x1_0000_0000,
    ;
}

/// Encoding a decoded word gives the word back: every `u64` is the packed
/// form of exactly one reading.
pub proof fn lemma_imu_unpack_roundtrip(raw: u64)
    ensures
        imu_packed(imu_unpacked(raw)) == raw,
{
    let hi = raw / 0x1_0000_0000;
    let lo = raw % 0x1_0000_0000;
    vstd::arithmetic::div_mod::lemma_fundamental_div_mod(raw as int, 0x1_0000_0000);
}

// ── Pointer validation ───────────────────────────────────────────────────────

/// Validate that a (ptr, len) pair stays within `memory_size` bytes.
///
/// `Ok(())` when the region fits, `Err(status::ERR_BOUNDS)` when it would
/// overflow or exceed the allocated memory.
pub fn validate_ptr_len(ptr: u32, len: u32, memory_size: u32) -> (r: Result<(), i32>)
    ensures
        r == (if ptr + len <= memory_size {
            Ok::<(), i32>(())
        } else {
            Err::<(), i32>(status::ERR_BOUNDS)
        }),
{
    match ptr.checked_add(len) {
        Some(end) => {
            if end <= memory_size {
                Ok(())
            } else {
                Err(status::ERR_BOUNDS)
            }
        },
        None => Err(status::ERR_BOUNDS),
    }
}

// ── Movement intents & routing ───────────────────────────────────────────────

/// A movement intent published by the Wasm ABI to the OS message bus.
#[derive(Debug, Clone, Copy, PartialEq, Eq, Structural)]
pub struct MovementIntent {
    /// Target speed for the left drive motor (−255 … +255).
    pub left_speed: i16,
    /// Target speed for the right drive motor (−255 … +255).
    pub right_speed: i16,
}

impl MovementIntent {
    /// Create a new intent from validated speed values.
    pub fn new(left: i16, right: i16) -> (r: Self)
        ensures
            r.left_speed == left && r.right_speed == right,
    {
        MovementIntent { left_speed: left, right_speed: right }
    }

    /// Create a zero-speed (full stop) intent.
    pub fn zero() -> (r: Self)
        ensures
            r.left_speed == 0 && r.right_speed == 0,
    {
        MovementIntent { left_speed: 0, right_speed: 0 }
    }
}

impl Default for MovementIntent {
    fn default() -> (r: Self)
        ensures
            r.left_speed == 0 && r.right_speed == 0,
    {
        MovementIntent::zero()
    }
}

/// Routing mode of the OS message bus.
#[derive(Debug, Clone, Copy, PartialEq, Eq, Structural)]
pub enum RoutingMode {
    /// Intents go to Core 1's local balancing loop (ABI code 0).
    SingleBoard,
    /// Intents are serialised and sent over ESP-NOW to a Worker (ABI code 1).
    Distributed,
}

impl Default for RoutingMode {
    fn default() -> (r: Self)
        ensures
            r == RoutingMode::SingleBoard,
    {
        RoutingMode::SingleBoard
    }
}

} // verus!
