//! Tests of the Brain board's logic: bus, router, motor and sensor bridges,
//! links, module health, Core 1 helpers, touch decoding, CPU load and NTP.
use sandos::abi::worker::WorkerPacket;
use sandos::abi::{worker_cmd, InferenceResult, MovementIntent, RoutingMode, TelemetryPacket, OdometryTelemetry};
use sandos::firmware::bus::{MessageBus, INTENT_QUEUE_DEPTH};
use sandos::firmware::core1::{blend_steering, clamp_i16, simulate_imu};
use sandos::firmware::cpu::CoreLoad;
use sandos::firmware::espnow::{contains_bytes, intent_expression};
use sandos::firmware::inference::{load_inference_result, store_inference_result, InferenceCell};
use sandos::firmware::links::{RadioLink, SwapCounter, WebServerSwitch, WifiState, WIFI_STATUS_CONNECTED, WIFI_STATUS_CONNECTING, WIFI_STATUS_ERROR, WIFI_STATUS_DISCONNECTED};
use sandos::firmware::motors::{reflex_duty, MotorBridge, DUTY_CENTER, DUTY_FLINCH};
use sandos::firmware::ntp::{sntp_offset_ms, sntp_request, NtpClock, ERR_RESPONSE_TOO_SHORT, ERR_ZERO_TIMESTAMP};
use sandos::firmware::openai::dispatch_intent;
use sandos::firmware::profile::{ModuleHealth, ModuleState};
use sandos::firmware::router::{audio_snapshot, on_dead_mans_switch, route_intent, run_fallback_inference, SnapshotQueue};
use sandos::firmware::sensors::SensorState;
use sandos::firmware::telemetry::TelemetryQueue;
use sandos::firmware::touch::{chip_id_valid, filter_contact, normalize_coords, parse_contact, Contact, TouchEvent, TouchPhase, TouchTracker};
use sandos::abi::EyeExpression;
use sandos::mock_host::run_stub_inference;

// ── Message bus ──────────────────────────────────────────────────────────────

#[test]
fn bus_starts_single_board_and_empty() {
    let bus = MessageBus::new();
    assert_eq!(bus.get_routing_mode(), RoutingMode::SingleBoard);
    assert_eq!(bus.pending_len(), 0);
}

#[test]
fn bus_routing_mode_reads_back_what_was_set() {
    let mut bus = MessageBus::new();
    bus.set_routing_mode(RoutingMode::Distributed);
    assert_eq!(bus.get_routing_mode(), RoutingMode::Distributed);
    bus.set_routing_mode(RoutingMode::SingleBoard);
    assert_eq!(bus.get_routing_mode(), RoutingMode::SingleBoard);
}

#[test]
fn bus_applies_back_pressure_at_depth() {
    let mut bus = MessageBus::new();
    for i in 0..INTENT_QUEUE_DEPTH {
        assert!(bus.publish_intent(MovementIntent::new(i as i16, 0)));
    }
    assert!(!bus.publish_intent(MovementIntent::new(99, 99)));
    assert_eq!(bus.pending_len(), INTENT_QUEUE_DEPTH);
}

#[test]
fn bus_delivers_intents_in_order() {
    let mut bus = MessageBus::new();
    bus.publish_intent(MovementIntent::new(1, 2));
    bus.publish_intent(MovementIntent::new(3, 4));
    assert_eq!(bus.next_intent(), Some(MovementIntent::new(1, 2)));
    assert_eq!(bus.next_intent(), Some(MovementIntent::new(3, 4)));
    assert_eq!(bus.next_intent(), None);
}

// ── Telemetry queue ──────────────────────────────────────────────────────────

#[test]
fn telemetry_queue_drops_when_full() {
    let mut q = TelemetryQueue::new();
    let p = TelemetryPacket::Odometry(OdometryTelemetry::default());
    for _ in 0..32 {
        assert!(q.push_telemetry(p));
    }
    assert!(!q.push_telemetry(p));
    assert_eq!(q.len(), 32);
    assert!(q.next_packet().is_some());
    assert_eq!(q.len(), 31);
}

// ── Motors and sensors ───────────────────────────────────────────────────────

#[test]
fn motor_bridge_keeps_both_speeds() {
    let mut m = MotorBridge::new();
    assert_eq!(m.load_motor_command(), (0, 0));
    assert!(m.store_motor_command(-120, 77));
    assert_eq!(m.load_motor_command(), (-120, 77));
    assert_eq!(m.command, 0xFF88_004D);
    assert!(m.store_motor_command(1, 2));
    assert_eq!(m.load_motor_command(), (1, 2));
}

#[test]
fn motor_bridge_enable_flag() {
    let mut m = MotorBridge::new();
    assert!(m.is_motor_enabled());
    m.set_motor_enabled(false);
    assert!(!m.is_motor_enabled());
    assert_eq!(m.enabled, 0);
}

#[test]
fn servo_reflex_flinches_near_obstacles() {
    let mut m = MotorBridge::new();
    assert_eq!(reflex_duty(&m, 150), Some(DUTY_FLINCH));
    assert_eq!(reflex_duty(&m, 200), Some(DUTY_CENTER));
    m.set_motor_enabled(false);
    assert_eq!(reflex_duty(&m, 150), None);
}

#[test]
fn sensors_default_and_store() {
    let mut s = SensorState::new();
    assert_eq!(s.load_tof_distance(), 9999);
    s.store_tof_distance(321);
    assert_eq!(s.load_tof_distance(), 321);
    assert_eq!(s.load_imu(), sandos::abi::ImuReading { pitch_millideg: 0, roll_millideg: 0 });
    s.store_imu(sandos::abi::ImuReading { pitch_millideg: 5, roll_millideg: -6 });
    assert_eq!(s.load_imu(), sandos::abi::ImuReading { pitch_millideg: 5, roll_millideg: -6 });
    assert_eq!(s.load_tof_distance(), 321);
}

// ── Router ───────────────────────────────────────────────────────────────────

#[test]
fn single_board_route_drives_local_motors() {
    let bus = MessageBus::new();
    let mut m = MotorBridge::new();
    let frame = route_intent(&bus, &mut m, MovementIntent::new(42, -42));
    assert!(frame.is_none());
    assert_eq!(m.load_motor_command(), (42, -42));
}

#[test]
fn distributed_route_sends_worker_frame() {
    let mut bus = MessageBus::new();
    bus.set_routing_mode(RoutingMode::Distributed);
    let mut m = MotorBridge::new();
    let frame = route_intent(&bus, &mut m, MovementIntent::new(100, -80)).expect("frame");
    assert_eq!(frame, vec![0x5A, 0x4E, 0x20, 4, 100, 0, 0xB0, 0xFF]);
    assert_eq!(m.load_motor_command(), (0, 0));
    let (cmd, payload) = WorkerPacket::decode(&frame).expect("decodes");
    assert_eq!(cmd, worker_cmd::MOTOR_SPEED);
    assert_eq!(WorkerPacket::parse_motor_speed(payload), Some((100, -80)));
}

#[test]
fn audio_snapshot_reinterprets_and_caps_bytes() {
    assert!(audio_snapshot(&[]).is_none());
    let s = audio_snapshot(&[0, 1, 0x80, 0xFF]).expect("snapshot");
    assert_eq!(s.as_slice(), &[0i8, 1, -128, -1]);
    let long = vec![7u8; 300];
    assert_eq!(audio_snapshot(&long).expect("snapshot").len(), 256);
}

#[test]
fn fallback_inference_runs_only_when_radio_silent() {
    let mut m = MotorBridge::new();
    let mut q = SnapshotQueue::new();
    let mut cell = InferenceCell::new();
    let audio = [10u8, 10, 20, 30, 200];
    assert!(q.offer(audio_snapshot(&audio).unwrap()));
    let mut radio = RadioLink::new();
    radio.record_rx(1_000);
    assert!(!on_dead_mans_switch(&mut m, &radio, 2_500, &mut q, &mut cell));
    assert_eq!(m.load_motor_command(), (0, 0));
    assert_eq!(load_inference_result(&cell), InferenceResult::default());
    assert!(on_dead_mans_switch(&mut m, &radio, 3_000, &mut q, &mut cell));
    let samples: Vec<i8> = audio.iter().map(|&b| b as i8).collect();
    assert_eq!(load_inference_result(&cell), run_stub_inference(&samples));
    assert!(!run_fallback_inference(&mut q, &mut cell));
}

#[test]
fn snapshot_queue_holds_two() {
    let mut q = SnapshotQueue::new();
    assert!(q.offer(audio_snapshot(&[1]).unwrap()));
    assert!(q.offer(audio_snapshot(&[2]).unwrap()));
    assert!(!q.offer(audio_snapshot(&[3]).unwrap()));
}

#[test]
fn inference_cell_store_then_load() {
    let mut cell = InferenceCell::new();
    let r = InferenceResult { active: true, top_class: 5, confidence_pct: 73 };
    store_inference_result(&mut cell, r);
    assert_eq!(load_inference_result(&cell), r);
}

// ── Links ────────────────────────────────────────────────────────────────────

#[test]
fn web_server_switch() {
    let mut w = WebServerSwitch::new();
    assert!(!w.is_web_server_enabled());
    w.enable_web_server();
    assert!(w.is_web_server_enabled());
    w.disable_web_server();
    assert!(!w.is_web_server_enabled());
}

#[test]
fn wifi_address_reads_back() {
    let mut w = WifiState::new();
    assert_eq!(w.wifi_status(), WIFI_STATUS_DISCONNECTED);
    assert_eq!(w.wifi_ipv4(), None);
    w.mark_connecting();
    assert_eq!(w.wifi_status(), WIFI_STATUS_CONNECTING);
    w.mark_connected([192, 168, 0, 42]);
    assert_eq!(w.wifi_status(), WIFI_STATUS_CONNECTED);
    assert_eq!(w.wifi_ipv4(), Some([192, 168, 0, 42]));
    assert_eq!(w.ipv4_be, 0xC0A8_002A);
    w.mark_error();
    assert_eq!(w.wifi_status(), WIFI_STATUS_ERROR);
    w.mark_connected([0, 0, 0, 0]);
    assert_eq!(w.wifi_ipv4(), None);
    w.mark_disconnected();
    assert_eq!(w.wifi_ipv4(), None);
}

#[test]
fn radio_link_window() {
    let mut r = RadioLink::new();
    r.record_rx(10_000);
    assert!(r.is_radio_link_alive(11_999));
    assert!(!r.is_radio_link_alive(12_000));
    assert!(r.is_radio_link_alive(5_000));
}

#[test]
fn swap_counter_wraps() {
    let mut c = SwapCounter::new();
    c.increment_hot_swap_count();
    assert_eq!(c.count, 1);
    c.count = u32::MAX;
    c.increment_hot_swap_count();
    assert_eq!(c.count, 0);
}

// ── Module health ────────────────────────────────────────────────────────────

#[test]
fn module_state_codes_and_labels() {
    assert_eq!(ModuleState::from_u8(0), ModuleState::Unknown);
    assert_eq!(ModuleState::from_u8(1), ModuleState::Configured);
    assert_eq!(ModuleState::from_u8(2), ModuleState::Online);
    assert_eq!(ModuleState::from_u8(3), ModuleState::Fault);
    assert_eq!(ModuleState::from_u8(200), ModuleState::Unknown);
    assert_eq!(ModuleState::Unknown.short(), "UNK");
    assert_eq!(ModuleState::Configured.short(), "CFG");
    assert_eq!(ModuleState::Online.short(), "OK");
    assert_eq!(ModuleState::Fault.short(), "ERR");
}

#[test]
fn module_health_snapshot() {
    let mut h = ModuleHealth::new();
    h.set_touch_state(ModuleState::Online);
    h.set_sd_state(ModuleState::Fault);
    let s = h.snapshot();
    assert_eq!(s.touch, ModuleState::Online);
    assert_eq!(s.sd, ModuleState::Fault);
    assert_eq!(s.display, ModuleState::Unknown);
}

// ── Core 1 ───────────────────────────────────────────────────────────────────

#[test]
fn clamp_and_blend() {
    assert_eq!(clamp_i16(40_000), i16::MAX);
    assert_eq!(clamp_i16(-40_000), i16::MIN);
    assert_eq!(clamp_i16(-5), -5);
    assert_eq!(blend_steering(i32::MAX, 10), i16::MAX);
    assert_eq!(blend_steering(100, -250), -150);
}

#[test]
fn simulated_imu_triangle_wave() {
    let r = simulate_imu(0);
    assert_eq!((r.pitch_millideg, r.roll_millideg), (0, 15_000));
    let r = simulate_imu(250);
    assert_eq!((r.pitch_millideg, r.roll_millideg), (30_000, 15_000));
    let r = simulate_imu(375);
    assert_eq!((r.pitch_millideg, r.roll_millideg), (15_000, 0));
    // u64::MAX % 500 == 115: still on the rising half, roll a quarter ahead.
    let r = simulate_imu(u64::MAX);
    assert_eq!((r.pitch_millideg, r.roll_millideg), (13_800, 28_800));
    let r = simulate_imu(1 << 63);
    assert!(r.pitch_millideg >= -30_000 && r.pitch_millideg <= 30_000);
}

// ── Touch ────────────────────────────────────────────────────────────────────

#[test]
fn touch_coordinates_scale_to_display() {
    assert_eq!(normalize_coords(0, 0), (0, 0));
    assert_eq!(normalize_coords(239, 319), (127, 63));
    assert_eq!(normalize_coords(120, 160), (63, 31));
}

#[test]
fn touch_contact_records() {
    assert!(parse_contact(&[0; 5]).is_none());
    let c = parse_contact(&[0x81, 0x23, 0x14, 0x56, 0, 0]).expect("contact");
    assert_eq!(c, Contact { phase: TouchPhase::Move, x: 0x123, y: 0x456, id: 1 });
    let c = parse_contact(&[0x40, 0x10, 0x00, 0x20, 0, 0]).expect("contact");
    assert_eq!(c.phase, TouchPhase::Up);
    assert!(parse_contact(&[0xC0, 0, 0, 0, 0, 0]).is_none());
}

#[test]
fn touch_jitter_is_suppressed_on_moves() {
    let prev = TouchEvent { phase: TouchPhase::Move, x: 63, y: 31, id: 0 };
    let c = Contact { phase: TouchPhase::Move, x: 122, y: 165, id: 0 };
    let e = filter_contact(c, Some(prev));
    assert_eq!((e.x, e.y), (63, 31));
    let c = Contact { phase: TouchPhase::Move, x: 239, y: 165, id: 0 };
    let e = filter_contact(c, Some(prev));
    assert_eq!((e.x, e.y), (127, 31));
    let c = Contact { phase: TouchPhase::Down, x: 122, y: 165, id: 0 };
    let e = filter_contact(c, Some(prev));
    assert_eq!((e.x, e.y), (64, 32));
}

#[test]
fn touch_tracker_follows_contacts() {
    assert!(!chip_id_valid(0x00));
    assert!(!chip_id_valid(0xFF));
    assert!(chip_id_valid(0x64));
    let mut t = TouchTracker::new();
    assert!(t.handle_packet(&[3, 0, 0, 0, 0, 0, 0, 0, 0, 0, 0]).is_none());
    assert!(!t.is_online());
    let down = [1, 0x00, 120, 0x00, 160, 0, 0, 0, 0, 0, 0];
    let ev = t.handle_packet(&down).expect("events");
    assert!(t.is_online());
    assert_eq!(ev, vec![TouchEvent { phase: TouchPhase::Down, x: 63, y: 31, id: 0 }]);
    let moved = [1, 0x80, 121, 0x00, 161, 0, 0, 0, 0, 0, 0];
    let ev = t.handle_packet(&moved).expect("events");
    assert_eq!(ev, vec![TouchEvent { phase: TouchPhase::Move, x: 63, y: 31, id: 0 }]);
    let none = [0, 0, 0, 0, 0, 0, 0, 0, 0, 0, 0];
    assert_eq!(t.handle_packet(&none), Some(vec![]));
}

// ── Radio intents, assistant ─────────────────────────────────────────────────

#[test]
fn radio_frames_set_moods() {
    assert_eq!(intent_expression(br#"{"emotion":"happy"}"#), Some(EyeExpression::Happy));
    assert_eq!(intent_expression(b"so sad"), Some(EyeExpression::Sad));
    assert_eq!(intent_expression(b"neutral please"), Some(EyeExpression::Neutral));
    assert_eq!(intent_expression(b"angry"), None);
    assert_eq!(intent_expression(&[0xFF, b'h', b'a', b'p', b'p', b'y']), None);
    assert!(contains_bytes(b"abc", b""));
    assert!(!contains_bytes(b"ab", b"abc"));
    assert_eq!(dispatch_intent("wave"), 0);
}

// ── CPU load and NTP ─────────────────────────────────────────────────────────

#[test]
fn cpu_load_tracks_idle_baseline() {
    let mut c = CoreLoad::new();
    c.update(50_000);
    assert_eq!(c.max_idle, 99_000);
    assert_eq!(c.usage_pct, 50);
    c.update(200_000);
    assert_eq!(c.max_idle, 200_000);
    assert_eq!(c.usage_pct, 0);
}

#[test]
fn sntp_reply_sets_clock() {
    let req = sntp_request();
    assert_eq!(req[0], 0x23);
    assert!(req[1..].iter().all(|&b| b == 0));
    let mut resp = [0u8; 48];
    let secs: u32 = 2_208_988_800 + 1_000;
    resp[40..44].copy_from_slice(&secs.to_be_bytes());
    assert_eq!(sntp_offset_ms(&resp, 47, 0, 0), Err(ERR_RESPONSE_TOO_SHORT));
    assert_eq!(sntp_offset_ms(&[0u8; 48], 48, 0, 0), Err(ERR_ZERO_TIMESTAMP));
    let offset = sntp_offset_ms(&resp, 48, 100, 300).expect("offset");
    assert_eq!(offset, 1_000_000 - 200);
    let mut clock = NtpClock::new();
    assert_eq!(clock.wall_clock_secs(500), None);
    clock.record_sync(offset);
    assert_eq!(clock.wall_clock_secs(200), Some(1_000));
}
