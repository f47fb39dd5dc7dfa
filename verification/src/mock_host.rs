//! A software model of the ESP32-S3 host state behind the Host-Guest ABI.
//!
//! [`MockHost`] offers the same methods as the firmware's ABI host; every
//! state change that the firmware would make on hardware is recorded in its
//! public fields, so that the ABI logic can be exercised without a board.
use vstd::prelude::*;

use std::collections::VecDeque;

use vstd::utf8::{decode_utf8, valid_utf8};

use crate::abi::crc::crc32_of;
use crate::abi::records::{inference_bytes, ota_status_bytes};
use crate::abi::telemetry::{imu_from_cdr, odom_from_cdr};
use crate::abi::{
    crc32, status, EyeExpression, ImuReading, ImuTelemetry, InferenceResult, MovementIntent,
    OdometryTelemetry, OtaState, OtaStatus, RoutingMode, TelemetryPacket, DEAD_MANS_SWITCH_MS,
    INFERENCE_RESULT_SIZE, MAX_AUDIO_PLAY, MAX_AUDIO_READ, MAX_BRIGHTNESS, MAX_MOTOR_SPEED,
    MAX_TEXT_BYTES, OTA_MAX_BINARY_SIZE, OTA_STATUS_SIZE, TELEMETRY_TX_CAPACITY,
};
use crate::abi::eye_code;
use crate::firmware::inference::{inference_of, TinyMlEngine};
use crate::firmware::ota::{write_at, zeros};
use crate::text::utf8_string;

verus! {

// ── Mock display ─────────────────────────────────────────────────────────────

/// Simulated display state.
#[derive(Debug)]
pub struct MockDisplay {
    /// Most recently rendered eye expression.
    pub current_expression: Option<EyeExpression>,
    /// Most recently written display text.
    pub display_text: String,
    /// Current brightness (0–255).
    pub brightness: u8,
}

impl Default for MockDisplay {
    fn default() -> (d: Self)
        ensures
            d.current_expression is None,
            d.display_text@ == Seq::<char>::empty(),
            d.brightness == 0,
    {
        MockDisplay { current_expression: None, display_text: String::new(), brightness: 0 }
    }
}

impl MockDisplay {
    /// Render an eye expression.
    pub fn draw_eye(&mut self, expression: EyeExpression) -> (r: i32)
        ensures
            r == status::OK,
            final(self).current_expression == Some(expression),
            final(self).display_text == old(self).display_text,
            final(self).brightness == old(self).brightness,
    {
        self.current_expression = Some(expression);
        status::OK
    }

    /// Show `bytes` as text when they are valid UTF-8; `ERR_INVALID_ARG`
    /// and no change otherwise.
    pub fn write_text(&mut self, bytes: &[u8]) -> (r: i32)
        ensures
            valid_utf8(bytes@) ==> r == status::OK && final(self).display_text@ == decode_utf8(
                bytes@,
            ),
            !valid_utf8(bytes@) ==> r == status::ERR_INVALID_ARG && final(self).display_text
                == old(self).display_text,
            final(self).current_expression == old(self).current_expression,
            final(self).brightness == old(self).brightness,
    {
        match utf8_string(bytes) {
            Some(s) => {
                self.display_text = s;
                status::OK
            },
            None => status::ERR_INVALID_ARG,
        }
    }

    /// Set the brightness.
    pub fn set_brightness(&mut self, value: u8) -> (r: i32)
        ensures
            r == status::OK,
            final(self).brightness == value,
            final(self).current_expression == old(self).current_expression,
            final(self).display_text == old(self).display_text,
    {
        self.brightness = value;
        status::OK
    }
}

// ── Mock host ────────────────────────────────────────────────────────────────

/// The full model of the ABI host.
#[derive(Debug)]
pub struct MockHost {
    /// Current LED state.
    pub led_on: bool,
    /// Number of `toggle_led` calls.
    pub toggle_count: u32,
    /// Simulated display.
    pub display: MockDisplay,
    /// Whether the microphone is streaming.
    pub audio_active: bool,
    /// Captured audio bytes not yet read by the guest.
    pub audio_buf: VecDeque<u8>,
    /// Audio bytes played by the guest.
    pub audio_tx_buf: VecDeque<u8>,
    /// Debug log messages received from the guest.
    pub log_messages: Vec<String>,
    /// Simulated uptime in milliseconds (set by the test harness).
    pub simulated_uptime_ms: u64,
    /// Simulated IMU reading (set by the test harness).
    pub imu_reading: ImuReading,
    /// Commanded left motor speed (−255 … +255).
    pub motor_left_speed: i32,
    /// Commanded right motor speed (−255 … +255).
    pub motor_right_speed: i32,
    /// Whether the motors are enabled (false = safe shutdown).
    pub motors_enabled: bool,
    /// Watchdog feeds, one per accepted motor command.
    pub watchdog_feed_count: u32,
    /// Routing mode of the OS message bus.
    pub routing_mode: RoutingMode,
    /// Every movement intent published to the message bus.
    pub intent_log: Vec<MovementIntent>,
    /// Uptime at which the most recent intent was published.
    pub last_intent_ms: u64,
    /// Whether the dead-man's switch has tripped.
    pub dead_mans_active: bool,
    /// Intents routed over ESP-NOW (Distributed mode).
    pub distributed_intents: Vec<MovementIntent>,
    /// The telemetry TX queue.
    pub telemetry_queue: Vec<TelemetryPacket>,
    /// Latest result of the local inference engine.
    pub inference_result: InferenceResult,
    /// Simulated radio link state.
    pub radio_link_alive: bool,
    /// Audio snapshots queued for fallback inference.
    pub audio_inference_queue: Vec<Vec<i8>>,
    /// State of the OTA state machine.
    pub ota_state: OtaState,
    /// Staging buffer of the incoming Wasm binary.
    pub ota_buffer: Vec<u8>,
    /// Total size declared by `ota_begin`.
    pub ota_expected_size: u32,
    /// Payload bytes written to `ota_buffer`.
    pub ota_bytes_received: u32,
    /// Completed hot-swaps.
    pub hot_swap_count: u32,
    /// Whether the Wasm VM is paused for a hot-swap.
    pub vm_paused: bool,
    /// The binary loaded in the simulated Wasm VM.
    pub active_wasm_binary: Vec<u8>,
}

// ── Frame conditions ─────────────────────────────────────────────────────────

/// LED, display, audio, log, clock and IMU are the same in `a` and `b`.
pub open spec fn same_io(a: &MockHost, b: &MockHost) -> bool {
    &&& a.led_on == b.led_on
    &&& a.toggle_count == b.toggle_count
    &&& a.display == b.display
    &&& a.audio_active == b.audio_active
    &&& a.audio_buf == b.audio_buf
    &&& a.audio_tx_buf == b.audio_tx_buf
    &&& a.log_messages == b.log_messages
    &&& a.simulated_uptime_ms == b.simulated_uptime_ms
    &&& a.imu_reading == b.imu_reading
}

/// Motor outputs, safe-shutdown flag, watchdog, routing and the dead-man's
/// switch are the same in `a` and `b`.
pub open spec fn same_motion(a: &MockHost, b: &MockHost) -> bool {
    &&& a.motor_left_speed == b.motor_left_speed
    &&& a.motor_right_speed == b.motor_right_speed
    &&& a.motors_enabled == b.motors_enabled
    &&& a.watchdog_feed_count == b.watchdog_feed_count
    &&& a.routing_mode == b.routing_mode
    &&& a.intent_log == b.intent_log
    &&& a.last_intent_ms == b.last_intent_ms
    &&& a.dead_mans_active == b.dead_mans_active
    &&& a.distributed_intents == b.distributed_intents
}

/// The telemetry queue is the same in `a` and `b`.
pub open spec fn same_telemetry(a: &MockHost, b: &MockHost) -> bool {
    a.telemetry_queue == b.telemetry_queue
}

/// Inference result, radio link and snapshot queue are the same.
pub open spec fn same_inference(a: &MockHost, b: &MockHost) -> bool {
    &&& a.inference_result == b.inference_result
    &&& a.radio_link_alive == b.radio_link_alive
    &&& a.audio_inference_queue == b.audio_inference_queue
}

/// The OTA engine and the loaded binary are the same in `a` and `b`.
pub open spec fn same_ota(a: &MockHost, b: &MockHost) -> bool {
    &&& a.ota_state == b.ota_state
    &&& a.ota_buffer == b.ota_buffer
    &&& a.ota_expected_size == b.ota_expected_size
    &&& a.ota_bytes_received == b.ota_bytes_received
    &&& a.hot_swap_count == b.hot_swap_count
    &&& a.vm_paused == b.vm_paused
    &&& a.active_wasm_binary == b.active_wasm_binary
}

/// A speed the motor ABI accepts.
pub open spec fn speed_in_range(v: i32) -> bool {
    -MAX_MOTOR_SPEED <= v <= MAX_MOTOR_SPEED
}

/// While a session is receiving, the staging buffer holds the declared
/// number of bytes.
pub open spec fn ota_buffer_consistent(h: &MockHost) -> bool {
    h.ota_state == OtaState::Receiving ==> h.ota_buffer@.len() == h.ota_expected_size
}

impl Default for MockHost {
    fn default() -> (h: Self)
        ensures
            !h.led_on && h.toggle_count == 0,
            h.display.current_expression is None && h.display.display_text@.len() == 0
                && h.display.brightness == 0,
            !h.audio_active && h.audio_buf@.len() == 0 && h.audio_tx_buf@.len() == 0,
            h.log_messages@.len() == 0 && h.simulated_uptime_ms == 0,
            h.imu_reading == (ImuReading { pitch_millideg: 0, roll_millideg: 0 }),
            h.motor_left_speed == 0 && h.motor_right_speed == 0 && h.motors_enabled,
            h.watchdog_feed_count == 0 && h.routing_mode == RoutingMode::SingleBoard,
            h.intent_log@.len() == 0 && h.last_intent_ms == 0 && !h.dead_mans_active,
            h.distributed_intents@.len() == 0 && h.telemetry_queue@.len() == 0,
            h.inference_result == (InferenceResult {
                active: false,
                top_class: 0,
                confidence_pct: 0,
            }),
            h.radio_link_alive && h.audio_inference_queue@.len() == 0,
            h.ota_state == OtaState::Idle && h.ota_buffer@.len() == 0,
            h.ota_expected_size == 0 && h.ota_bytes_received == 0 && h.hot_swap_count == 0,
            !h.vm_paused && h.active_wasm_binary@.len() == 0,
    {
        MockHost {
            led_on: false,
            toggle_count: 0,
            display: MockDisplay::default(),
            audio_active: false,
            audio_buf: VecDeque::new(),
            audio_tx_buf: VecDeque::new(),
            log_messages: Vec::new(),
            simulated_uptime_ms: 0,
            imu_reading: ImuReading::default(),
            motor_left_speed: 0,
            motor_right_speed: 0,
            motors_enabled: true,
            watchdog_feed_count: 0,
            routing_mode: RoutingMode::SingleBoard,
            intent_log: Vec::new(),
            last_intent_ms: 0,
            dead_mans_active: false,
            distributed_intents: Vec::new(),
            telemetry_queue: Vec::new(),
            inference_result: InferenceResult::default(),
            radio_link_alive: true,
            audio_inference_queue: Vec::new(),
            ota_state: OtaState::Idle,
            ota_buffer: Vec::new(),
            ota_expected_size: 0,
            ota_bytes_received: 0,
            hot_swap_count: 0,
            vm_paused: false,
            active_wasm_binary: Vec::new(),
        }
    }
}

impl MockHost {
    // ── LED, clock, log ──────────────────────────────────────────────────────

    /// Toggle the LED and count the call.
    pub fn toggle_led(&mut self) -> (r: i32)
        requires
            old(self).toggle_count < u32::MAX,
        ensures
            r == status::OK,
            final(self).led_on == !old(self).led_on,
            final(self).toggle_count == old(self).toggle_count + 1,
            *final(self) == (MockHost {
                led_on: !old(self).led_on,
                toggle_count: (old(self).toggle_count + 1) as u32,
                ..*old(self)
            }),
    {
        self.led_on = !self.led_on;
        self.toggle_count = self.toggle_count + 1;
        status::OK
    }

    /// The simulated uptime (reinterpreted as `i64`).
    pub fn get_uptime_ms(&self) -> (r: i64)
        ensures
            r == self.simulated_uptime_ms as i64,
    {
        self.simulated_uptime_ms as i64
    }

    /// Record a UTF-8 message from the guest; `ERR_INVALID_ARG` and no
    /// change for bytes that are not valid UTF-8.
    pub fn debug_log(&mut self, bytes: &[u8]) -> (r: i32)
        ensures
            valid_utf8(bytes@) ==> {
                &&& r == status::OK
                &&& final(self).log_messages@.len() == old(self).log_messages@.len() + 1
                &&& final(self).log_messages@.subrange(0, old(self).log_messages@.len() as int)
                    == old(self).log_messages@
                &&& final(self).log_messages@.last()@ == decode_utf8(bytes@)
            },
            !valid_utf8(bytes@) ==> r == status::ERR_INVALID_ARG && final(self).log_messages
                == old(self).log_messages,
            final(self).led_on == old(self).led_on,
            final(self).display == old(self).display,
            final(self).audio_buf == old(self).audio_buf,
            same_motion(old(self), final(self)),
            same_telemetry(old(self), final(self)),
            same_inference(old(self), final(self)),
            same_ota(old(self), final(self)),
    {
        match utf8_string(bytes) {
            Some(s) => {
                self.log_messages.push(s);
                status::OK
            },
            None => status::ERR_INVALID_ARG,
        }
    }

    // ── Display ──────────────────────────────────────────────────────────────

    /// Render an eye expression given by its raw ABI code; `ERR_INVALID_ARG`
    /// and no change for unknown codes.
    pub fn draw_eye(&mut self, expression_raw: i32) -> (r: i32)
        ensures
            0 <= expression_raw <= 6 ==> r == status::OK && (
            final(self).display.current_expression matches Some(e) && eye_code(e)
                == expression_raw),
            !(0 <= expression_raw <= 6) ==> r == status::ERR_INVALID_ARG
                && final(self).display.current_expression == old(self).display.current_expression,
            final(self).display.display_text == old(self).display.display_text,
            final(self).display.brightness == old(self).display.brightness,
            same_motion(old(self), final(self)),
            same_ota(old(self), final(self)),
    {
        match EyeExpression::from_i32(expression_raw) {
            Some(expr) => self.display.draw_eye(expr),
            None => status::ERR_INVALID_ARG,
        }
    }

    /// Write text to the display: `ERR_BOUNDS` above `MAX_TEXT_BYTES`
    /// bytes, `ERR_INVALID_ARG` for invalid UTF-8, no change in either case.
    pub fn write_text(&mut self, bytes: &[u8]) -> (r: i32)
        ensures
            bytes@.len() > MAX_TEXT_BYTES ==> r == status::ERR_BOUNDS && final(self).display
                == old(self).display,
            bytes@.len() <= MAX_TEXT_BYTES && valid_utf8(bytes@) ==> r == status::OK && final(self).display.display_text@ == decode_utf8(bytes@),
            bytes@.len() <= MAX_TEXT_BYTES && !valid_utf8(bytes@) ==> r == status::ERR_INVALID_ARG
                && final(self).display == old(self).display,
            final(self).display.current_expression == old(self).display.current_expression,
            final(self).display.brightness == old(self).display.brightness,
            same_motion(old(self), final(self)),
            same_ota(old(self), final(self)),
    {
        if bytes.len() > MAX_TEXT_BYTES as usize {
            return status::ERR_BOUNDS;
        }
        let r = self.display.write_text(bytes);
        if r != status::OK {
            assert(self.display == old(self).display);
        }
        r
    }

    /// Set the display brightness; `ERR_INVALID_ARG` and no change outside
    /// `0..=MAX_BRIGHTNESS`.
    pub fn set_brightness(&mut self, value: i32) -> (r: i32)
        ensures
            0 <= value <= MAX_BRIGHTNESS ==> r == status::OK && final(self).display.brightness
                == value,
            !(0 <= value <= MAX_BRIGHTNESS) ==> r == status::ERR_INVALID_ARG
                && final(self).display.brightness == old(self).display.brightness,
            final(self).display.current_expression == old(self).display.current_expression,
            final(self).display.display_text == old(self).display.display_text,
            same_motion(old(self), final(self)),
            same_ota(old(self), final(self)),
    {
        if value < 0 || value > MAX_BRIGHTNESS {
            return status::ERR_INVALID_ARG;
        }
        self.display.set_brightness(value as u8)
    }

    // ── Audio ────────────────────────────────────────────────────────────────

    /// Start capturing: the capture buffer is emptied.
    pub fn start_audio_capture(&mut self) -> (r: i32)
        ensures
            r == status::OK,
            final(self).audio_active,
            final(self).audio_buf@.len() == 0,
            final(self).audio_tx_buf == old(self).audio_tx_buf,
            same_motion(old(self), final(self)),
            same_ota(old(self), final(self)),
    {
        self.audio_active = true;
        self.audio_buf.clear();
        status::OK
    }

    /// Stop capturing; buffered audio stays readable.
    pub fn stop_audio_capture(&mut self) -> (r: i32)
        ensures
            r == status::OK,
            !final(self).audio_active,
            final(self).audio_buf == old(self).audio_buf,
            same_motion(old(self), final(self)),
            same_ota(old(self), final(self)),
    {
        self.audio_active = false;
        status::OK
    }

    /// Number of buffered audio bytes (reinterpreted as `i32`).
    pub fn get_audio_avail(&self) -> (r: i32)
        ensures
            r == self.audio_buf@.len() as i32,
    {
        self.audio_buf.len() as i32
    }

    /// Move up to `out.len()` buffered bytes, oldest first, into the front
    /// of `out` and return how many were moved; `ERR_BOUNDS` and no change
    /// when `out` is longer than `MAX_AUDIO_READ`.
    pub fn read_audio(&mut self, out: &mut [u8]) -> (r: i32)
        ensures
            old(out)@.len() > MAX_AUDIO_READ ==> {
                &&& r == status::ERR_BOUNDS
                &&& final(out)@ == old(out)@
                &&& final(self).audio_buf == old(self).audio_buf
            },
            old(out)@.len() <= MAX_AUDIO_READ ==> {
                let n = if old(out)@.len() < old(self).audio_buf@.len() {
                    old(out)@.len() as int
                } else {
                    old(self).audio_buf@.len() as int
                };
                &&& r == n
                &&& final(out)@ == old(self).audio_buf@.subrange(0, n) + old(out)@.subrange(
                    n,
                    old(out)@.len() as int,
                )
                &&& final(self).audio_buf@ == old(self).audio_buf@.subrange(
                    n,
                    old(self).audio_buf@.len() as int,
                )
            },
            final(self).audio_active == old(self).audio_active,
            final(self).audio_tx_buf == old(self).audio_tx_buf,
            same_motion(old(self), final(self)),
            same_ota(old(self), final(self)),
    {
        if out.len() > MAX_AUDIO_READ as usize {
            return status::ERR_BOUNDS;
        }
        let n = if out.len() < self.audio_buf.len() {
            out.len()
        } else {
            self.audio_buf.len()
        };
        let ghost buf0 = self.audio_buf@;
        let ghost out0 = out@;
        let mut i: usize = 0;
        while i < n
            invariant
                n <= out@.len(),
                n <= buf0.len(),
                n <= 1024,
                i <= n,
                out@.len() == out0.len(),
                self.audio_buf@ == buf0.subrange(i as int, buf0.len() as int),
                forall|k: int| 0 <= k < i ==> out@[k] == buf0[k],
                forall|k: int| i <= k < out@.len() ==> out@[k] == out0[k],
                self.audio_active == old(self).audio_active,
                self.audio_tx_buf == old(self).audio_tx_buf,
                same_motion(old(self), self),
                same_ota(old(self), self),
            decreases n - i,
        {
            let b = match self.audio_buf.pop_front() {
                Some(b) => b,
                None => 0u8,
            };
            out[i] = b;
            i += 1;
            assert(self.audio_buf@ =~= buf0.subrange(i as int, buf0.len() as int));
        }
        assert(out@ =~= buf0.subrange(0, n as int) + out0.subrange(n as int, out0.len() as int));
        n as i32
    }

    /// Queue audio for playback; `ERR_BOUNDS` and no change above
    /// `MAX_AUDIO_PLAY` bytes.
    pub fn play_audio(&mut self, bytes: &[u8]) -> (r: i32)
        ensures
            bytes@.len() > MAX_AUDIO_PLAY ==> r == status::ERR_BOUNDS && final(self).audio_tx_buf
                == old(self).audio_tx_buf,
            bytes@.len() <= MAX_AUDIO_PLAY ==> r == status::OK && final(self).audio_tx_buf@ == old(self).audio_tx_buf@ + bytes@,
            final(self).audio_buf == old(self).audio_buf,
            same_motion(old(self), final(self)),
            same_ota(old(self), final(self)),
    {
        if bytes.len() > MAX_AUDIO_PLAY as usize {
            return status::ERR_BOUNDS;
        }
        let n = bytes.len();
        let mut i: usize = 0;
        while i < n
            invariant
                n == bytes@.len(),
                i <= n,
                self.audio_tx_buf@ == old(self).audio_tx_buf@ + bytes@.subrange(0, i as int),
                self.audio_buf == old(self).audio_buf,
                same_motion(old(self), self),
                same_ota(old(self), self),
            decreases n - i,
        {
            self.audio_tx_buf.push_back(bytes[i]);
            i += 1;
            assert(self.audio_tx_buf@ =~= old(self).audio_tx_buf@ + bytes@.subrange(0, i as int));
        }
        assert(bytes@.subrange(0, n as int) =~= bytes@);
        status::OK
    }

    /// Append raw PCM bytes to the capture buffer (test harness input).
    pub fn feed_audio(&mut self, data: &[u8])
        ensures
            final(self).audio_buf@ == old(self).audio_buf@ + data@,
            final(self).audio_active == old(self).audio_active,
            final(self).audio_tx_buf == old(self).audio_tx_buf,
            same_motion(old(self), final(self)),
            same_ota(old(self), final(self)),
    {
        let n = data.len();
        let mut i: usize = 0;
        while i < n
            invariant
                n == data@.len(),
                i <= n,
                self.audio_buf@ == old(self).audio_buf@ + data@.subrange(0, i as int),
                self.audio_active == old(self).audio_active,
                self.audio_tx_buf == old(self).audio_tx_buf,
                same_motion(old(self), self),
                same_ota(old(self), self),
            decreases n - i,
        {
            self.audio_buf.push_back(data[i]);
            i += 1;
            assert(self.audio_buf@ =~= old(self).audio_buf@ + data@.subrange(0, i as int));
        }
        assert(data@.subrange(0, n as int) =~= data@);
    }

    // ── Sensors ──────────────────────────────────────────────────────────────

    /// The current IMU reading.
    pub fn get_pitch_roll(&self) -> (r: ImuReading)
        ensures
            r == self.imu_reading,
    {
        self.imu_reading
    }

    // ── Motors and routing ───────────────────────────────────────────────────

    /// Command both drive motors.
    ///
    /// `ERR_INVALID_ARG` when a speed is outside `±MAX_MOTOR_SPEED`,
    /// `ERR_BUSY` while the motors are disabled; no change in either case.
    /// Otherwise the intent is always logged, the dead-man's switch is
    /// re-armed at the current uptime, the intent is routed (Single-Board:
    /// the motor speeds; Distributed: the ESP-NOW log) and the watchdog is
    /// fed once.
    pub fn set_motor_speed(&mut self, left: i32, right: i32) -> (r: i32)
        requires
            left != i32::MIN,
            speed_in_range(left) ==> right != i32::MIN,
            speed_in_range(left) && speed_in_range(right) && old(self).motors_enabled ==> old(
            self).watchdog_feed_count < u32::MAX,
        ensures
            !(speed_in_range(left) && speed_in_range(right)) ==> r == status::ERR_INVALID_ARG
                && *final(self) == *old(self),
            speed_in_range(left) && speed_in_range(right) && !old(self).motors_enabled ==> r
                == status::ERR_BUSY && *final(self) == *old(self),
            speed_in_range(left) && speed_in_range(right) && old(self).motors_enabled ==> {
                let intent = MovementIntent { left_speed: left as i16, right_speed: right as i16 };
                &&& r == status::OK
                &&& final(self).intent_log@ == old(self).intent_log@.push(intent)
                &&& final(self).last_intent_ms == old(self).simulated_uptime_ms
                &&& !final(self).dead_mans_active
                &&& final(self).watchdog_feed_count == old(self).watchdog_feed_count + 1
                &&& final(self).motors_enabled == old(self).motors_enabled
                &&& final(self).routing_mode == old(self).routing_mode
                &&& old(self).routing_mode == RoutingMode::SingleBoard ==> {
                    &&& final(self).motor_left_speed == left
                    &&& final(self).motor_right_speed == right
                    &&& final(self).distributed_intents == old(self).distributed_intents
                }
                &&& old(self).routing_mode == RoutingMode::Distributed ==> {
                    &&& final(self).motor_left_speed == old(self).motor_left_speed
                    &&& final(self).motor_right_speed == old(self).motor_right_speed
                    &&& final(self).distributed_intents@ == old(self).distributed_intents@.push(
                        intent,
                    )
                }
                &&& same_io(old(self), final(self))
                &&& same_telemetry(old(self), final(self))
                &&& same_inference(old(self), final(self))
                &&& same_ota(old(self), final(self))
            },
    {
        if left < -MAX_MOTOR_SPEED || left > MAX_MOTOR_SPEED || right < -MAX_MOTOR_SPEED || right
            > MAX_MOTOR_SPEED {
            return status::ERR_INVALID_ARG;
        }
        if !self.motors_enabled {
            return status::ERR_BUSY;
        }
        let intent = MovementIntent::new(left as i16, right as i16);
        self.intent_log.push(intent);
        self.last_intent_ms = self.simulated_uptime_ms;
        self.dead_mans_active = false;
        match self.routing_mode {
            RoutingMode::SingleBoard => {
                self.motor_left_speed = left;
                self.motor_right_speed = right;
            },
            RoutingMode::Distributed => {
                self.distributed_intents.push(intent);
            },
        }
        self.watchdog_feed_count = self.watchdog_feed_count + 1;
        status::OK
    }

    /// Trip the dead-man's switch when more than `DEAD_MANS_SWITCH_MS` have
    /// passed between the last intent and `current_ms` (a clock reading
    /// before the last intent counts as no time): the switch becomes active
    /// and both motor speeds become 0.  No change otherwise.
    pub fn check_dead_mans_switch(&mut self, current_ms: u64)
        ensures
            elapsed_ms(old(self).last_intent_ms, current_ms) > DEAD_MANS_SWITCH_MS ==> {
                &&& final(self).dead_mans_active
                &&& final(self).motor_left_speed == 0
                &&& final(self).motor_right_speed == 0
                &&& final(self).intent_log == old(self).intent_log
                &&& final(self).last_intent_ms == old(self).last_intent_ms
                &&& final(self).motors_enabled == old(self).motors_enabled
                &&& final(self).watchdog_feed_count == old(self).watchdog_feed_count
                &&& final(self).routing_mode == old(self).routing_mode
                &&& final(self).distributed_intents == old(self).distributed_intents
                &&& same_io(old(self), final(self))
                &&& same_telemetry(old(self), final(self))
                &&& same_inference(old(self), final(self))
                &&& same_ota(old(self), final(self))
            },
            elapsed_ms(old(self).last_intent_ms, current_ms) <= DEAD_MANS_SWITCH_MS ==> *final(
            self) == *old(self),
    {
        let gap = if current_ms >= self.last_intent_ms {
            current_ms - self.last_intent_ms
        } else {
            0
        };
        if gap > DEAD_MANS_SWITCH_MS {
            self.dead_mans_active = true;
            self.motor_left_speed = 0;
            self.motor_right_speed = 0;
        }
    }

    // ── Telemetry ────────────────────────────────────────────────────────────

    /// Queue an IMU telemetry record sent as CDR bytes by the guest.
    ///
    /// `ERR_BOUNDS` unless exactly `ImuTelemetry::SERIALIZED_SIZE` bytes are
    /// given, `ERR_BUSY` when the queue holds `TELEMETRY_TX_CAPACITY`
    /// packets; no change in either case.
    pub fn emit_imu_telemetry(&mut self, bytes: &[u8]) -> (r: i32)
        ensures
            bytes@.len() != 36 ==> r == status::ERR_BOUNDS && *final(self) == *old(self),
            bytes@.len() == 36 && old(self).telemetry_queue@.len() >= TELEMETRY_TX_CAPACITY ==> r
                == status::ERR_BUSY && *final(self) == *old(self),
            bytes@.len() == 36 && old(self).telemetry_queue@.len() < TELEMETRY_TX_CAPACITY ==> {
                &&& r == status::OK
                &&& final(self).telemetry_queue@ == old(self).telemetry_queue@.push(
                    TelemetryPacket::Imu(imu_from_cdr(bytes@)),
                )
                &&& same_io(old(self), final(self))
                &&& same_motion(old(self), final(self))
                &&& same_inference(old(self), final(self))
                &&& same_ota(old(self), final(self))
            },
    {
        if bytes.len() != ImuTelemetry::SERIALIZED_SIZE {
            return status::ERR_BOUNDS;
        }
        match ImuTelemetry::from_cdr(bytes) {
            Some(imu) => {
                if self.telemetry_queue.len() >= TELEMETRY_TX_CAPACITY {
                    return status::ERR_BUSY;
                }
                self.telemetry_queue.push(TelemetryPacket::Imu(imu));
                status::OK
            },
            None => status::ERR_BOUNDS,
        }
    }

    /// Queue an odometry telemetry record sent as CDR bytes by the guest;
    /// the same checks as [`MockHost::emit_imu_telemetry`] with
    /// `OdometryTelemetry::SERIALIZED_SIZE`.
    pub fn emit_odom_telemetry(&mut self, bytes: &[u8]) -> (r: i32)
        ensures
            bytes@.len() != 20 ==> r == status::ERR_BOUNDS && *final(self) == *old(self),
            bytes@.len() == 20 && old(self).telemetry_queue@.len() >= TELEMETRY_TX_CAPACITY ==> r
                == status::ERR_BUSY && *final(self) == *old(self),
            bytes@.len() == 20 && old(self).telemetry_queue@.len() < TELEMETRY_TX_CAPACITY ==> {
                &&& r == status::OK
                &&& final(self).telemetry_queue@ == old(self).telemetry_queue@.push(
                    TelemetryPacket::Odometry(odom_from_cdr(bytes@)),
                )
                &&& same_io(old(self), final(self))
                &&& same_motion(old(self), final(self))
                &&& same_inference(old(self), final(self))
                &&& same_ota(old(self), final(self))
            },
    {
        if bytes.len() != OdometryTelemetry::SERIALIZED_SIZE {
            return status::ERR_BOUNDS;
        }
        match OdometryTelemetry::from_cdr(bytes) {
            Some(odom) => {
                if self.telemetry_queue.len() >= TELEMETRY_TX_CAPACITY {
                    return status::ERR_BUSY;
                }
                self.telemetry_queue.push(TelemetryPacket::Odometry(odom));
                status::OK
            },
            None => status::ERR_BOUNDS,
        }
    }

    /// Number of queued telemetry packets (reinterpreted as `i32`).
    pub fn get_telemetry_queue_len(&self) -> (r: i32)
        ensures
            r == self.telemetry_queue@.len() as i32,
    {
        self.telemetry_queue.len() as i32
    }

    // ── Local inference ──────────────────────────────────────────────────────

    /// Write the 12-byte inference result into the front of `out`;
    /// `ERR_BOUNDS` and no change when `out` is shorter.
    pub fn get_local_inference(&self, out: &mut [u8]) -> (r: i32)
        ensures
            old(out)@.len() < INFERENCE_RESULT_SIZE ==> r == status::ERR_BOUNDS && final(out)@
                == old(out)@,
            old(out)@.len() >= INFERENCE_RESULT_SIZE ==> r == status::OK && final(out)@
                == inference_bytes(self.inference_result) + old(out)@.subrange(
                12,
                old(out)@.len() as int,
            ),
    {
        if out.len() < INFERENCE_RESULT_SIZE as usize {
            return status::ERR_BOUNDS;
        }
        self.inference_result.to_bytes(out);
        status::OK
    }

    /// Whether the simulated radio link is alive.
    pub fn is_radio_link_alive(&self) -> (b: bool)
        ensures
            b == self.radio_link_alive,
    {
        self.radio_link_alive
    }

    /// Queue an audio snapshot for the fallback inference pipeline.
    pub fn push_audio_for_inference(&mut self, samples: Vec<i8>)
        ensures
            final(self).audio_inference_queue@ == old(self).audio_inference_queue@.push(samples),
            final(self).inference_result == old(self).inference_result,
            final(self).radio_link_alive == old(self).radio_link_alive,
            same_io(old(self), final(self)),
            same_motion(old(self), final(self)),
            same_telemetry(old(self), final(self)),
            same_ota(old(self), final(self)),
    {
        self.audio_inference_queue.push(samples);
    }

    /// Run the inference engine on the oldest queued snapshot and store the
    /// result; `false` and no change when the queue is empty.
    pub fn run_fallback_inference(&mut self) -> (r: bool)
        ensures
            r == (old(self).audio_inference_queue@.len() > 0),
            !r ==> *final(self) == *old(self),
            r ==> {
                &&& final(self).audio_inference_queue@ == old(self).audio_inference_queue@.drop_first()
                &&& final(self).inference_result == inference_of(
                    old(self).audio_inference_queue@[0]@,
                )
                &&& final(self).radio_link_alive == old(self).radio_link_alive
                &&& same_io(old(self), final(self))
                &&& same_motion(old(self), final(self))
                &&& same_telemetry(old(self), final(self))
                &&& same_ota(old(self), final(self))
            },
    {
        if self.audio_inference_queue.len() == 0 {
            return false;
        }
        let snapshot = self.audio_inference_queue.remove(0);
        assert(old(self).audio_inference_queue@.remove(0) =~= old(
        self).audio_inference_queue@.drop_first());
        self.inference_result = run_stub_inference(snapshot.as_slice());
        true
    }

    // ── OTA hot-swap engine ──────────────────────────────────────────────────

    /// Begin an OTA session of `total_size` bytes.
    ///
    /// `ERR_INVALID_ARG` for a size of 0 or above `OTA_MAX_BINARY_SIZE`,
    /// `ERR_BUSY` during a hot-swap; no change in either case.  Otherwise any
    /// session in progress is replaced: the staging buffer becomes
    /// `total_size` zero bytes and the state `Receiving`.
    pub fn ota_begin(&mut self, total_size: u32) -> (r: i32)
        ensures
            (total_size == 0 || total_size > OTA_MAX_BINARY_SIZE) ==> r == status::ERR_INVALID_ARG
                && *final(self) == *old(self),
            0 < total_size <= OTA_MAX_BINARY_SIZE && old(self).ota_state == OtaState::Swapping
                ==> r == status::ERR_BUSY && *final(self) == *old(self),
            0 < total_size <= OTA_MAX_BINARY_SIZE && old(self).ota_state != OtaState::Swapping
                ==> {
                &&& r == status::OK
                &&& final(self).ota_state == OtaState::Receiving
                &&& final(self).ota_expected_size == total_size
                &&& final(self).ota_bytes_received == 0
                &&& final(self).ota_buffer@ == zeros(total_size as nat)
                &&& final(self).hot_swap_count == old(self).hot_swap_count
                &&& final(self).vm_paused == old(self).vm_paused
                &&& final(self).active_wasm_binary == old(self).active_wasm_binary
                &&& same_io(old(self), final(self))
                &&& same_motion(old(self), final(self))
                &&& same_telemetry(old(self), final(self))
                &&& same_inference(old(self), final(self))
            },
            ota_buffer_consistent(old(self)) ==> ota_buffer_consistent(final(self)),
    {
        if total_size == 0 || total_size as usize > OTA_MAX_BINARY_SIZE {
            return status::ERR_INVALID_ARG;
        }
        if self.ota_state == OtaState::Swapping {
            return status::ERR_BUSY;
        }
        let mut fresh: Vec<u8> = Vec::new();
        let mut i: u32 = 0;
        while i < total_size
            invariant
                i <= total_size,
                fresh@ == zeros(i as nat),
            decreases total_size - i,
        {
            fresh.push(0u8);
            i += 1;
            assert(fresh@ =~= zeros(i as nat));
        }
        self.ota_state = OtaState::Receiving;
        self.ota_expected_size = total_size;
        self.ota_bytes_received = 0;
        self.ota_buffer = fresh;
        status::OK
    }

    /// Write one chunk of the binary at `offset` in the staging buffer.
    ///
    /// `ERR_BUSY` unless a session is receiving, `ERR_INVALID_ARG` for an
    /// empty chunk, `ERR_BOUNDS` when the chunk would run past the declared
    /// size; no change in any of these cases.  Otherwise the bytes are
    /// written and counted in `ota_bytes_received`.
    pub fn ota_receive_chunk(&mut self, offset: u32, data: &[u8]) -> (r: i32)
        requires
            ota_buffer_consistent(old(self)),
            old(self).ota_state == OtaState::Receiving && data@.len() > 0 && offset + data@.len()
                <= old(self).ota_expected_size ==> old(self).ota_bytes_received + data@.len()
                <= u32::MAX,
        ensures
            old(self).ota_state != OtaState::Receiving ==> r == status::ERR_BUSY && *final(self)
                == *old(self),
            old(self).ota_state == OtaState::Receiving && data@.len() == 0 ==> r
                == status::ERR_INVALID_ARG && *final(self) == *old(self),
            old(self).ota_state == OtaState::Receiving && data@.len() > 0 && offset + data@.len()
                > old(self).ota_expected_size ==> r == status::ERR_BOUNDS && *final(self) == *old(
            self),
            old(self).ota_state == OtaState::Receiving && data@.len() > 0 && offset + data@.len()
                <= old(self).ota_expected_size ==> {
                &&& r == status::OK
                &&& final(self).ota_buffer@ == write_at(old(self).ota_buffer@, offset as int, data@)
                &&& final(self).ota_bytes_received == old(self).ota_bytes_received + data@.len()
                &&& final(self).ota_state == old(self).ota_state
                &&& final(self).ota_expected_size == old(self).ota_expected_size
                &&& final(self).hot_swap_count == old(self).hot_swap_count
                &&& final(self).vm_paused == old(self).vm_paused
                &&& final(self).active_wasm_binary == old(self).active_wasm_binary
                &&& same_io(old(self), final(self))
                &&& same_motion(old(self), final(self))
                &&& same_telemetry(old(self), final(self))
                &&& same_inference(old(self), final(self))
            },
            ota_buffer_consistent(final(self)),
    {
        if self.ota_state != OtaState::Receiving {
            return status::ERR_BUSY;
        }
        if data.len() == 0 {
            return status::ERR_INVALID_ARG;
        }
        let expected = self.ota_expected_size as usize;
        if offset as usize > expected || data.len() > expected - offset as usize {
            return status::ERR_BOUNDS;
        }
        let off = offset as usize;
        let n = data.len();
        let mut buf: Vec<u8> = Vec::new();
        std::mem::swap(&mut buf, &mut self.ota_buffer);
        let ghost before = buf@;
        let blen = buf.len();
        let mut i: usize = 0;
        while i < n
            invariant
                n == data@.len(),
                off + n <= blen,
                blen == buf@.len(),
                buf@.len() == before.len(),
                i <= n,
                forall|k: int| 0 <= k < off ==> buf@[k] == before[k],
                forall|k: int| off <= k < off + i ==> buf@[k] == data@[k - off],
                forall|k: int| off + i <= k < buf@.len() ==> buf@[k] == before[k],
            decreases n - i,
        {
            buf.set(off + i, data[i]);
            i += 1;
        }
        assert(buf@ =~= write_at(before, off as int, data@));
        self.ota_buffer = buf;
        self.ota_bytes_received = self.ota_bytes_received + n as u32;
        status::OK
    }

    /// Check the CRC-32 of the staged binary against `expected_crc32`.
    ///
    /// `ERR_BUSY` and no change unless a session is receiving.  A match
    /// makes the state `Ready`; a mismatch makes it `Failed` and returns
    /// `ERR_INVALID_ARG`.
    pub fn ota_finalize(&mut self, expected_crc32: u32) -> (r: i32)
        ensures
            old(self).ota_state != OtaState::Receiving ==> r == status::ERR_BUSY && *final(self)
                == *old(self),
            old(self).ota_state == OtaState::Receiving ==> {
                &&& crc32_of(old(self).ota_buffer@) == expected_crc32 ==> r == status::OK
                    && final(self).ota_state == OtaState::Ready
                &&& crc32_of(old(self).ota_buffer@) != expected_crc32 ==> r
                    == status::ERR_INVALID_ARG && final(self).ota_state == OtaState::Failed
                &&& final(self).ota_buffer == old(self).ota_buffer
                &&& final(self).ota_expected_size == old(self).ota_expected_size
                &&& final(self).ota_bytes_received == old(self).ota_bytes_received
                &&& final(self).hot_swap_count == old(self).hot_swap_count
                &&& final(self).vm_paused == old(self).vm_paused
                &&& final(self).active_wasm_binary == old(self).active_wasm_binary
                &&& same_io(old(self), final(self))
                &&& same_motion(old(self), final(self))
                &&& same_telemetry(old(self), final(self))
                &&& same_inference(old(self), final(self))
            },
            ota_buffer_consistent(old(self)) ==> ota_buffer_consistent(final(self)),
    {
        if self.ota_state != OtaState::Receiving {
            return status::ERR_BUSY;
        }
        let actual = crc32(self.ota_buffer.as_slice());
        if actual != expected_crc32 {
            self.ota_state = OtaState::Failed;
            return status::ERR_INVALID_ARG;
        }
        self.ota_state = OtaState::Ready;
        status::OK
    }

    /// Install the verified binary in the Wasm VM.
    ///
    /// `ERR_BUSY` and no change unless the state is `Ready`.  Otherwise the
    /// VM is paused, the old binary is dropped, the staged binary becomes the
    /// active one, the VM resumes, the swap is counted and the session is
    /// reset to `Idle`.  Nothing outside the OTA engine and the VM changes:
    /// motors, routing, telemetry, inference and I/O state stay as they were.
    pub fn hot_swap_wasm(&mut self) -> (r: i32)
        requires
            old(self).ota_state == OtaState::Ready ==> old(self).hot_swap_count < u32::MAX,
        ensures
            old(self).ota_state != OtaState::Ready ==> r == status::ERR_BUSY && *final(self)
                == *old(self),
            old(self).ota_state == OtaState::Ready ==> {
                &&& r == status::OK
                &&& final(self).active_wasm_binary@ == old(self).ota_buffer@
                &&& final(self).ota_buffer@.len() == 0
                &&& final(self).ota_state == OtaState::Idle
                &&& final(self).ota_expected_size == 0
                &&& final(self).ota_bytes_received == 0
                &&& final(self).hot_swap_count == old(self).hot_swap_count + 1
                &&& !final(self).vm_paused
            },
            same_io(old(self), final(self)),
            same_motion(old(self), final(self)),
            same_telemetry(old(self), final(self)),
            same_inference(old(self), final(self)),
            ota_buffer_consistent(old(self)) ==> ota_buffer_consistent(final(self)),
    {
        if self.ota_state != OtaState::Ready {
            return status::ERR_BUSY;
        }
        self.vm_paused = true;
        self.ota_state = OtaState::Swapping;
        self.active_wasm_binary.clear();
        let mut staged: Vec<u8> = Vec::new();
        std::mem::swap(&mut staged, &mut self.ota_buffer);
        self.active_wasm_binary = staged;
        self.vm_paused = false;
        self.hot_swap_count = self.hot_swap_count + 1;
        self.ota_state = OtaState::Idle;
        self.ota_expected_size = 0;
        self.ota_bytes_received = 0;
        status::OK
    }

    /// Write the 16-byte OTA status snapshot into the front of `out`;
    /// `ERR_BOUNDS` and no change when `out` is shorter.
    pub fn get_ota_status(&self, out: &mut [u8]) -> (r: i32)
        ensures
            old(out)@.len() < OTA_STATUS_SIZE ==> r == status::ERR_BOUNDS && final(out)@ == old(
            out)@,
            old(out)@.len() >= OTA_STATUS_SIZE ==> r == status::OK && final(out)@
                == ota_status_bytes(
                OtaStatus {
                    state: self.ota_state,
                    bytes_received: self.ota_bytes_received,
                    total_size: self.ota_expected_size,
                    swap_count: self.hot_swap_count,
                },
            ) + old(out)@.subrange(16, old(out)@.len() as int),
    {
        if out.len() < OTA_STATUS_SIZE as usize {
            return status::ERR_BOUNDS;
        }
        let snapshot = OtaStatus {
            state: self.ota_state,
            bytes_received: self.ota_bytes_received,
            total_size: self.ota_expected_size,
            swap_count: self.hot_swap_count,
        };
        snapshot.to_bytes(out);
        status::OK
    }
}

/// Milliseconds from `since` to `now`; 0 when `now` is earlier.
pub open spec fn elapsed_ms(since: u64, now: u64) -> int {
    if now >= since { now - since } else { 0 }
}

/// One pass of the inference engine over `tensor`, as the firmware's
/// fallback pipeline runs it.
pub fn run_stub_inference(tensor: &[i8]) -> (r: InferenceResult)
    ensures
        r == inference_of(tensor@),
{
    let engine = TinyMlEngine::new();
    engine.run(tensor)
}

} // verus!
