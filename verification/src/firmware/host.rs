//! The Brain board's ABI host: the state behind the host functions the
//! Wasm guest imports, and what each call does to it. Shared services (the
//! message bus, motor bridge, telemetry queue, inference result and audio
//! snapshot queue) are passed to the calls that use them.
use vstd::prelude::*;

use heapless::Deque;

use crate::abi::records::{inference_bytes, inference_unpacked, ota_status_bytes};
use crate::abi::telemetry::{imu_decode, odom_decode};
use crate::abi::{
    eye_code, status, EyeExpression, ImuReading, ImuTelemetry, MovementIntent, OdometryTelemetry, OtaState,
    OtaStatus, TelemetryPacket, INFERENCE_RESULT_SIZE, MAX_AUDIO_READ, MAX_BRIGHTNESS,
    MAX_MOTOR_SPEED, MAX_TEXT_BYTES, OTA_STATUS_SIZE, TELEMETRY_TX_CAPACITY,
};
use crate::firmware::bus::{MessageBus, INTENT_QUEUE_DEPTH};
use crate::firmware::display::{DisplayCommand, DisplayDriver, DISPLAY_QUEUE_DEPTH};
use crate::firmware::inference::{load_inference_result, InferenceCell};
use crate::firmware::motors::MotorBridge;
use crate::firmware::rgb_led::RgbLedDriver;
use crate::firmware::router::{audio_snapshot, snapshot_of, SnapshotQueue, AUDIO_INFERENCE_QUEUE_DEPTH};
use crate::firmware::sensors::SensorState;
use crate::firmware::telemetry::TelemetryQueue;

verus! {

/// Capacity of the microphone ring buffer in bytes.
pub const AUDIO_BUF_CAPACITY: usize = 8192;

/// The bytes held by the microphone ring buffer, oldest first.
pub uninterp spec fn audio_bytes(q: Deque<u8, 8192>) -> Seq<u8>;

/// `heapless::Deque::new`: an empty buffer.
#[verifier::external_body]
fn audio_new() -> (q: Deque<u8, 8192>)
    ensures
        audio_bytes(q).len() == 0,
{
    Deque::new()
}

/// `heapless::Deque::clear`: the buffer becomes empty.
#[verifier::external_body]
fn audio_clear(q: &mut Deque<u8, 8192>)
    ensures
        audio_bytes(*final(q)).len() == 0,
{
    q.clear()
}

/// `heapless::Deque::len`: bytes held, never above the capacity.
#[verifier::external_body]
fn audio_len(q: &Deque<u8, 8192>) -> (n: usize)
    ensures
        n == audio_bytes(*q).len(),
        n <= AUDIO_BUF_CAPACITY,
{
    q.len()
}

/// `heapless::Deque::push_back`: appends the byte unless the buffer is
/// full, in which case nothing changes.
#[verifier::external_body]
fn audio_push_back(q: &mut Deque<u8, 8192>, b: u8) -> (ok: bool)
    ensures
        ok == (audio_bytes(*old(q)).len() < AUDIO_BUF_CAPACITY),
        ok ==> audio_bytes(*final(q)) == audio_bytes(*old(q)).push(b),
        !ok ==> audio_bytes(*final(q)) == audio_bytes(*old(q)),
{
    q.push_back(b).is_ok()
}

/// `heapless::Deque::pop_front`: removes and returns the oldest byte, or
/// `None` when the buffer is empty.
#[verifier::external_body]
fn audio_pop_front(q: &mut Deque<u8, 8192>) -> (r: Option<u8>)
    ensures
        audio_bytes(*old(q)).len() == 0 ==> r is None && audio_bytes(*final(q)) == audio_bytes(*old(q)),
        audio_bytes(*old(q)).len() > 0 ==> r == Some(audio_bytes(*old(q))[0]) && audio_bytes(*final(q))
            == audio_bytes(*old(q)).drop_first(),
{
    q.pop_front()
}

/// `heapless::Deque::as_slices`: the held bytes as two slices that, in
/// order, make up the contents.
#[verifier::external_body]
fn audio_as_slices(q: &Deque<u8, 8192>) -> (r: (&[u8], &[u8]))
    ensures
        r.0@ + r.1@ == audio_bytes(*q),
        r.0@.len() + r.1@.len() <= AUDIO_BUF_CAPACITY,
{
    q.as_slices()
}

/// The last `AUDIO_BUF_CAPACITY` bytes of `s` (all of it when shorter).
pub open spec fn keep_newest(s: Seq<u8>) -> Seq<u8> {
    if s.len() <= AUDIO_BUF_CAPACITY {
        s
    } else {
        s.subrange(s.len() - AUDIO_BUF_CAPACITY, s.len() as int)
    }
}

/// The buffer after taking in `incoming`: when full, the oldest byte makes
/// room for each new one.
proof fn lemma_keep_newest_push(s: Seq<u8>, b: u8)
    requires
        s.len() <= AUDIO_BUF_CAPACITY,
    ensures
        s.len() == AUDIO_BUF_CAPACITY ==> keep_newest(s.push(b)) == s.drop_first().push(b),
        s.len() < AUDIO_BUF_CAPACITY ==> keep_newest(s.push(b)) == s.push(b),
{
    if s.len() == AUDIO_BUF_CAPACITY {
        assert(keep_newest(s.push(b)) =~= s.drop_first().push(b));
    }
}

/// The host state behind the guest's imports.
pub struct AbiHost {
    /// The onboard LED is lit.
    pub led_on: bool,
    /// Uptime (ms) at boot.
    pub boot_time_ms: u64,
    pub display: DisplayDriver,
    /// The microphone is streaming.
    pub audio_active: bool,
    /// Microphone bytes not yet read by the guest.
    pub audio_buf: Deque<u8, 8192>,
    pub ota_state: OtaState,
    pub ota_expected_size: u32,
    pub ota_bytes_received: u32,
    pub hot_swap_count: u32,
    pub rgb_led: RgbLedDriver,
}

impl AbiHost {
    /// The held microphone bytes, oldest first.
    pub open spec fn audio(&self) -> Seq<u8> {
        audio_bytes(self.audio_buf)
    }

    /// Everything in its reset state, with the given display and LED.
    pub fn new(display: DisplayDriver, rgb_led: RgbLedDriver) -> (h: Self)
        ensures
            !h.led_on && h.boot_time_ms == 0 && !h.audio_active,
            h.audio().len() == 0,
            h.ota_state == OtaState::Idle,
            h.ota_expected_size == 0 && h.ota_bytes_received == 0 && h.hot_swap_count == 0,
            h.display == display && h.rgb_led == rgb_led,
    {
        AbiHost {
            led_on: false,
            boot_time_ms: 0,
            display,
            audio_active: false,
            audio_buf: audio_new(),
            ota_state: OtaState::Idle,
            ota_expected_size: 0,
            ota_bytes_received: 0,
            hot_swap_count: 0,
            rgb_led,
        }
    }

    /// Toggle the onboard LED.
    pub fn toggle_led(&mut self) -> (r: i32)
        ensures
            r == status::OK,
            *final(self) == (AbiHost { led_on: !old(self).led_on, ..*old(self) }),
    {
        self.led_on = !self.led_on;
        status::OK
    }

    /// Log guest text; always succeeds, whatever the bytes.
    pub fn debug_log(&self, bytes: &[u8]) -> (r: i32)
        ensures
            r == status::OK,
    {
        status::OK
    }

    /// Draw an expression given by its ABI code; unknown codes are refused.
    pub fn draw_eye(&mut self, expression_raw: i32) -> (r: i32)
        ensures
            !(0 <= expression_raw <= 6) ==> r == status::ERR_INVALID_ARG && *final(self) == *old(self),
            0 <= expression_raw <= 6 ==> ({
                let e = final(self).display.expression();
                &&& r == status::OK
                &&& eye_code(e) == expression_raw
                &&& final(self).display.level() == old(self).display.level()
                &&& final(self).display.line() == old(self).display.line()
                &&& old(self).display.pending().len() < DISPLAY_QUEUE_DEPTH ==> final(self).display.pending()
                    == old(self).display.pending().push(DisplayCommand::SetExpression(e))
                &&& old(self).display.pending().len() >= DISPLAY_QUEUE_DEPTH ==> final(self).display.pending()
                    == old(self).display.pending()
                &&& *final(self) == (AbiHost { display: final(self).display, ..*old(self) })
            }),
    {
        match EyeExpression::from_i32(expression_raw) {
            Some(expr) => self.display.draw_eye(expr),
            None => status::ERR_INVALID_ARG,
        }
    }

    /// Show guest text on the status line; longer than `MAX_TEXT_BYTES` is
    /// refused with `ERR_BOUNDS`, otherwise the display driver decides.
    pub fn write_text(&mut self, bytes: &[u8]) -> (r: i32)
        ensures
            bytes@.len() > MAX_TEXT_BYTES ==> r == status::ERR_BOUNDS && *final(self) == *old(self),
            bytes@.len() <= MAX_TEXT_BYTES ==> *final(self) == (AbiHost { display: final(self).display, ..*old(self) }),
            bytes@.len() <= MAX_TEXT_BYTES && !vstd::utf8::valid_utf8(bytes@) ==> r == status::ERR_INVALID_ARG
                && final(self).display == old(self).display,
            bytes@.len() <= MAX_TEXT_BYTES && vstd::utf8::valid_utf8(bytes@) ==> {
                &&& r == status::OK
                &&& final(self).display.line() == crate::firmware::display::kept_text(vstd::utf8::decode_utf8(bytes@))
                &&& final(self).display.expression() == old(self).display.expression()
                &&& final(self).display.level() == old(self).display.level()
                &&& old(self).display.pending().len() < DISPLAY_QUEUE_DEPTH ==> {
                    &&& final(self).display.pending().drop_last() == old(self).display.pending()
                    &&& final(self).display.pending().len() == old(self).display.pending().len() + 1
                    &&& final(self).display.pending().last() matches DisplayCommand::SetText(t)
                        && crate::firmware::ui::status_text_bytes(t) == final(self).display.line()
                }
                &&& old(self).display.pending().len() >= DISPLAY_QUEUE_DEPTH ==> final(self).display.pending()
                    == old(self).display.pending()
            },
    {
        if bytes.len() > MAX_TEXT_BYTES as usize {
            return status::ERR_BOUNDS;
        }
        self.display.write_text(bytes)
    }

    /// Set the backlight (0 to `MAX_BRIGHTNESS`); other values are refused.
    pub fn set_brightness(&mut self, value: i32) -> (r: i32)
        ensures
            (value < 0 || value > MAX_BRIGHTNESS) ==> r == status::ERR_INVALID_ARG && *final(self) == *old(self),
            0 <= value <= MAX_BRIGHTNESS ==> {
                &&& r == status::OK
                &&& final(self).display.level() == value
                &&& final(self).display.expression() == old(self).display.expression()
                &&& final(self).display.line() == old(self).display.line()
                &&& old(self).display.pending().len() < DISPLAY_QUEUE_DEPTH ==> final(self).display.pending()
                    == old(self).display.pending().push(DisplayCommand::SetBrightness(value as u8))
                &&& old(self).display.pending().len() >= DISPLAY_QUEUE_DEPTH ==> final(self).display.pending()
                    == old(self).display.pending()
                &&& *final(self) == (AbiHost { display: final(self).display, ..*old(self) })
            },
    {
        if value < 0 || value > MAX_BRIGHTNESS {
            return status::ERR_INVALID_ARG;
        }
        self.display.set_brightness(value as u8)
    }

    /// Start streaming the microphone into an empty buffer.
    pub fn start_audio_capture(&mut self) -> (r: i32)
        ensures
            r == status::OK,
            final(self).audio_active,
            final(self).audio().len() == 0,
            *final(self) == (AbiHost { audio_active: true, audio_buf: final(self).audio_buf, ..*old(self) }),
    {
        self.audio_active = true;
        audio_clear(&mut self.audio_buf);
        status::OK
    }

    /// Stop streaming the microphone; buffered bytes stay.
    pub fn stop_audio_capture(&mut self) -> (r: i32)
        ensures
            r == status::OK,
            *final(self) == (AbiHost { audio_active: false, ..*old(self) }),
    {
        self.audio_active = false;
        status::OK
    }

    /// Bytes waiting in the microphone buffer.
    pub fn get_audio_avail(&self) -> (n: i32)
        ensures
            n == self.audio().len(),
    {
        audio_len(&self.audio_buf) as i32
    }

    /// Take in the bytes the microphone delivered since the last call
    /// (dropping the oldest when the buffer is full), then copy the oldest
    /// buffered bytes into `out`, as many as fit. Returns how many were
    /// copied; a request above `MAX_AUDIO_READ` gets `ERR_BOUNDS` and
    /// copies nothing.
    pub fn read_audio(&mut self, incoming: &[u8], out: &mut [u8]) -> (r: i32)
        ensures
            ({
                let filled = keep_newest(old(self).audio() + incoming@);
                let n: int = if old(out)@.len() < filled.len() { old(out)@.len() as int } else { filled.len() as int };
                &&& old(out)@.len() > MAX_AUDIO_READ ==> r == status::ERR_BOUNDS && final(self).audio() == filled
                    && final(out)@ == old(out)@
                &&& old(out)@.len() <= MAX_AUDIO_READ ==> r == n && final(self).audio() == filled.subrange(n, filled.len() as int)
                    && final(out)@ == filled.subrange(0, n) + old(out)@.subrange(n, old(out)@.len() as int)
                &&& *final(self) == (AbiHost { audio_buf: final(self).audio_buf, ..*old(self) })
            }),
    {
        let ghost start = self.audio();
        let _held = audio_len(&self.audio_buf);
        assert(start + incoming@.take(0) =~= start);
        let mut i: usize = 0;
        while i < incoming.len()
            invariant
                0 <= i <= incoming@.len(),
                self.audio() == keep_newest(start + incoming@.take(i as int)),
                self.audio().len() <= AUDIO_BUF_CAPACITY,
                start.len() <= AUDIO_BUF_CAPACITY,
                *self == (AbiHost { audio_buf: self.audio_buf, ..*old(self) }),
            decreases incoming@.len() - i,
        {
            let byte = incoming[i];
            let ghost before = self.audio();
            proof {
                lemma_keep_newest_push(before, byte);
                lemma_keep_newest_step(start, incoming@, i as int);
            }
            if audio_len(&self.audio_buf) == AUDIO_BUF_CAPACITY {
                let _ = audio_pop_front(&mut self.audio_buf);
            }
            let _ = audio_push_back(&mut self.audio_buf, byte);
            i = i + 1;
        }
        proof {
            assert(incoming@.take(incoming@.len() as int) =~= incoming@);
        }
        if out.len() > MAX_AUDIO_READ as usize {
            return status::ERR_BOUNDS;
        }
        let avail = audio_len(&self.audio_buf);
        let n = if out.len() < avail { out.len() } else { avail };
        let ghost filled = self.audio();
        let ghost out0 = out@;
        let mut k: usize = 0;
        while k < n
            invariant
                0 <= k <= n,
                n <= out@.len(),
                n <= filled.len(),
                out@.len() == out0.len(),
                self.audio() == filled.subrange(k as int, filled.len() as int),
                out@ == filled.subrange(0, k as int) + out0.subrange(k as int, out0.len() as int),
                *self == (AbiHost { audio_buf: self.audio_buf, ..*old(self) }),
            decreases n - k,
        {
            let b = match audio_pop_front(&mut self.audio_buf) {
                Some(b) => b,
                None => 0,
            };
            out[k] = b;
            proof {
                assert(self.audio() =~= filled.subrange(k + 1, filled.len() as int));
                assert(out@ =~= filled.subrange(0, k + 1) + out0.subrange(k + 1, out0.len() as int));
            }
            k = k + 1;
        }
        n as i32
    }

    /// The latest IMU reading Core 1 published.
    pub fn get_pitch_roll(&self, sensors: &SensorState) -> (r: ImuReading)
        ensures
            r == sensors.imu,
    {
        sensors.load_imu()
    }

    /// Ask for wheel speeds: speeds beyond `MAX_MOTOR_SPEED` are refused
    /// (`ERR_INVALID_ARG`); while the motors are locked out, or the intent
    /// queue is full, the request is refused with `ERR_BUSY`; otherwise the
    /// intent is published for the router.
    pub fn set_motor_speed(&self, motors: &MotorBridge, bus: &mut MessageBus, left: i32, right: i32) -> (r: i32)
        requires
            left != i32::MIN,
            -MAX_MOTOR_SPEED <= left <= MAX_MOTOR_SPEED ==> right != i32::MIN,
        ensures
            ({
                let in_range = -MAX_MOTOR_SPEED <= left <= MAX_MOTOR_SPEED && -MAX_MOTOR_SPEED <= right
                    <= MAX_MOTOR_SPEED;
                let room = old(bus).pending().len() < INTENT_QUEUE_DEPTH;
                &&& !in_range ==> r == status::ERR_INVALID_ARG && *final(bus) == *old(bus)
                &&& in_range && motors.enabled == 0 ==> r == status::ERR_BUSY && *final(bus) == *old(bus)
                &&& in_range && motors.enabled != 0 && !room ==> r == status::ERR_BUSY
                    && final(bus).pending() == old(bus).pending()
                &&& in_range && motors.enabled != 0 && room ==> r == status::OK && final(bus).pending()
                    == old(bus).pending().push(MovementIntent { left_speed: left as i16, right_speed: right as i16 })
                &&& final(bus).mode_code() == old(bus).mode_code()
            }),
    {
        let la = if left < 0 { -left } else { left };
        if la > MAX_MOTOR_SPEED {
            return status::ERR_INVALID_ARG;
        }
        let ra = if right < 0 { -right } else { right };
        if ra > MAX_MOTOR_SPEED {
            return status::ERR_INVALID_ARG;
        }
        if !motors.is_motor_enabled() {
            return status::ERR_BUSY;
        }
        let intent = MovementIntent::new(left as i16, right as i16);
        if bus.publish_intent(intent) {
            status::OK
        } else {
            status::ERR_BUSY
        }
    }

    /// Queue a CDR-encoded IMU packet for the radio: a payload that is not
    /// exactly 36 bytes is refused (`ERR_BOUNDS`), a full queue gives
    /// `ERR_BUSY`.
    pub fn emit_imu_telemetry(&self, q: &mut TelemetryQueue, bytes: &[u8]) -> (r: i32)
        ensures
            bytes@.len() != 36 ==> r == status::ERR_BOUNDS && final(q).pending() == old(q).pending(),
            bytes@.len() == 36 && old(q).pending().len() >= TELEMETRY_TX_CAPACITY ==> r == status::ERR_BUSY
                && final(q).pending() == old(q).pending(),
            bytes@.len() == 36 && old(q).pending().len() < TELEMETRY_TX_CAPACITY ==> r == status::OK
                && final(q).pending() == old(q).pending().push(TelemetryPacket::Imu(imu_decode(bytes@)->0)),
    {
        if bytes.len() != ImuTelemetry::SERIALIZED_SIZE {
            return status::ERR_BOUNDS;
        }
        match ImuTelemetry::from_cdr(bytes) {
            Some(imu) => if q.push_telemetry(TelemetryPacket::Imu(imu)) {
                status::OK
            } else {
                status::ERR_BUSY
            },
            None => status::ERR_BOUNDS,
        }
    }

    /// Queue a CDR-encoded odometry packet for the radio: a payload that is
    /// not exactly 20 bytes is refused (`ERR_BOUNDS`), a full queue gives
    /// `ERR_BUSY`.
    pub fn emit_odom_telemetry(&self, q: &mut TelemetryQueue, bytes: &[u8]) -> (r: i32)
        ensures
            bytes@.len() != 20 ==> r == status::ERR_BOUNDS && final(q).pending() == old(q).pending(),
            bytes@.len() == 20 && old(q).pending().len() >= TELEMETRY_TX_CAPACITY ==> r == status::ERR_BUSY
                && final(q).pending() == old(q).pending(),
            bytes@.len() == 20 && old(q).pending().len() < TELEMETRY_TX_CAPACITY ==> r == status::OK
                && final(q).pending() == old(q).pending().push(TelemetryPacket::Odometry(odom_decode(bytes@)->0)),
    {
        if bytes.len() != OdometryTelemetry::SERIALIZED_SIZE {
            return status::ERR_BOUNDS;
        }
        match OdometryTelemetry::from_cdr(bytes) {
            Some(odom) => if q.push_telemetry(TelemetryPacket::Odometry(odom)) {
                status::OK
            } else {
                status::ERR_BUSY
            },
            None => status::ERR_BOUNDS,
        }
    }

    /// Packets waiting for the radio.
    pub fn get_telemetry_queue_len(&self, q: &TelemetryQueue) -> (n: i32)
        ensures
            n == q.pending().len(),
    {
        q.len() as i32
    }

    /// Write the latest local inference result (12 bytes) into `out`;
    /// `ERR_BOUNDS` when `out` is shorter.
    pub fn get_local_inference(&self, cell: &InferenceCell, out: &mut [u8]) -> (r: i32)
        ensures
            old(out)@.len() < INFERENCE_RESULT_SIZE ==> r == status::ERR_BOUNDS && final(out)@ == old(out)@,
            old(out)@.len() >= INFERENCE_RESULT_SIZE ==> r == status::OK && final(out)@ == inference_bytes(
                inference_unpacked(cell.raw),
            ) + old(out)@.subrange(12, old(out)@.len() as int),
    {
        if out.len() < INFERENCE_RESULT_SIZE as usize {
            return status::ERR_BOUNDS;
        }
        let result = load_inference_result(cell);
        result.to_bytes(out);
        status::OK
    }

    /// Offer the oldest buffered microphone bytes (at most 256, read as
    /// signed samples) to the fallback inference; nothing when the buffer is
    /// empty, and the snapshot is dropped when the queue is full.
    pub fn push_audio_for_inference(&self, snapshots: &mut SnapshotQueue)
        ensures
            self.audio().len() == 0 ==> final(snapshots).pending() == old(snapshots).pending(),
            self.audio().len() > 0 && old(snapshots).pending().len() < AUDIO_INFERENCE_QUEUE_DEPTH
                ==> final(snapshots).pending() == old(snapshots).pending().push(snapshot_of(self.audio())),
            self.audio().len() > 0 && old(snapshots).pending().len() >= AUDIO_INFERENCE_QUEUE_DEPTH
                ==> final(snapshots).pending() == old(snapshots).pending(),
    {
        let (a, b) = audio_as_slices(&self.audio_buf);
        let total = a.len() + b.len();
        let n: usize = if total < 256 { total } else { 256 };
        if n == 0 {
            return;
        }
        let ghost all = self.audio();
        let mut head: Vec<u8> = Vec::new();
        let mut i: usize = 0;
        while i < n
            invariant
                0 <= i <= n,
                n <= all.len(),
                n <= 256,
                a@ + b@ == all,
                head@ == all.take(i as int),
            decreases n - i,
        {
            let byte = if i < a.len() { a[i] } else { b[i - a.len()] };
            head.push(byte);
            proof {
                assert(head@ =~= all.take(i + 1));
            }
            i = i + 1;
        }
        proof {
            assert(snapshot_of(head@) =~= snapshot_of(all));
        }
        match audio_snapshot(&head) {
            Some(snap) => {
                let _ = snapshots.offer(snap);
            },
            None => {},
        }
    }

    /// Write the OTA status (16 bytes) into `out`; `ERR_BOUNDS` when `out`
    /// is shorter.
    pub fn get_ota_status(&self, out: &mut [u8]) -> (r: i32)
        ensures
            old(out)@.len() < OTA_STATUS_SIZE ==> r == status::ERR_BOUNDS && final(out)@ == old(out)@,
            old(out)@.len() >= OTA_STATUS_SIZE ==> r == status::OK && final(out)@ == ota_status_bytes(
                OtaStatus {
                    state: self.ota_state,
                    bytes_received: self.ota_bytes_received,
                    total_size: self.ota_expected_size,
                    swap_count: self.hot_swap_count,
                },
            ) + old(out)@.subrange(16, old(out)@.len() as int),
    {
        if out.len() < OTA_STATUS_SIZE as usize {
            return status::ERR_BOUNDS;
        }
        let snapshot = OtaStatus {
            state: self.ota_state,
            bytes_received: self.ota_bytes_received,
            total_size: self.ota_expected_size,
            swap_count: self.hot_swap_count,
        };
        snapshot.to_bytes(out);
        status::OK
    }

    /// Set the RGB LED; components outside 0..=255 are refused.
    pub fn set_rgb_led(&mut self, red: i32, green: i32, blue: i32) -> (r: i32)
        ensures
            !(0 <= red <= 255 && 0 <= green <= 255 && 0 <= blue <= 255) ==> r == status::ERR_INVALID_ARG
                && *final(self) == *old(self),
            (0 <= red <= 255 && 0 <= green <= 255 && 0 <= blue <= 255) ==> r == status::OK
                && final(self).rgb_led.r == red && final(self).rgb_led.g == green && final(self).rgb_led.b == blue
                && *final(self) == (AbiHost { rgb_led: final(self).rgb_led, ..*old(self) }),
    {
        if red < 0 || red > 255 || green < 0 || green > 255 || blue < 0 || blue > 255 {
            return status::ERR_INVALID_ARG;
        }
        self.rgb_led.set_color(red as u8, green as u8, blue as u8);
        status::OK
    }

    /// The RGB LED's colour, each component as an `i32`.
    pub fn get_rgb_led(&self) -> (c: (i32, (i32, i32, i32)))
        ensures
            c == (status::OK, (self.rgb_led.r as i32, self.rgb_led.g as i32, self.rgb_led.b as i32)),
    {
        let (r, g, b) = self.rgb_led.get_color();
        (status::OK, (r as i32, g as i32, b as i32))
    }
}

proof fn lemma_keep_newest_step(start: Seq<u8>, incoming: Seq<u8>, i: int)
    requires
        0 <= i < incoming.len(),
        start.len() <= AUDIO_BUF_CAPACITY,
    ensures
        keep_newest(start + incoming.take(i + 1)) == keep_newest(keep_newest(start + incoming.take(i)).push(
            incoming[i],
        )),
{
    let s = start + incoming.take(i);
    assert(start + incoming.take(i + 1) =~= s.push(incoming[i]));
    if s.len() > AUDIO_BUF_CAPACITY {
        let k = keep_newest(s);
        assert(keep_newest(s.push(incoming[i])) =~= keep_newest(k.push(incoming[i])));
    }
}

} // verus!
