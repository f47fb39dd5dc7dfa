//! Tests of the Brain board's ABI host.
use sandos::abi::{status, ImuReading, ImuTelemetry, OdometryTelemetry, OtaState, RoutingMode};
use sandos::firmware::bus::MessageBus;
use sandos::firmware::display::{DisplayCommand, DisplayDriver};
use sandos::firmware::host::AbiHost;
use sandos::firmware::inference::{store_inference_result, InferenceCell};
use sandos::firmware::motors::MotorBridge;
use sandos::firmware::rgb_led::RgbLedDriver;
use sandos::firmware::router::SnapshotQueue;
use sandos::firmware::sensors::SensorState;
use sandos::firmware::telemetry::TelemetryQueue;
use sandos::abi::InferenceResult;

fn host() -> AbiHost {
    AbiHost::new(DisplayDriver::new(), RgbLedDriver::new())
}

#[test]
fn host_boot_state_and_led() {
    let mut h = host();
    assert!(!h.led_on);
    assert_eq!(h.toggle_led(), status::OK);
    assert!(h.led_on);
    assert_eq!(h.debug_log(&[0xFF]), status::OK);
    assert_eq!(h.ota_state, OtaState::Idle);
}

#[test]
fn host_display_calls() {
    let mut h = host();
    assert_eq!(h.draw_eye(7), status::ERR_INVALID_ARG);
    assert_eq!(h.draw_eye(1), status::OK);
    assert_eq!(h.write_text(&[b'x'; 257]), status::ERR_BOUNDS);
    assert_eq!(h.write_text(&[0xC3]), status::ERR_INVALID_ARG);
    assert_eq!(h.write_text(b"hi"), status::OK);
    assert_eq!(h.set_brightness(256), status::ERR_INVALID_ARG);
    assert_eq!(h.set_brightness(-1), status::ERR_INVALID_ARG);
    assert_eq!(h.set_brightness(40), status::OK);
    let mut cmds = Vec::new();
    while let Some(c) = h.display.next_command() {
        cmds.push(c);
    }
    assert_eq!(cmds.len(), 3);
    assert!(matches!(cmds[0], DisplayCommand::SetExpression(_)));
    assert!(matches!(&cmds[1], DisplayCommand::SetText(t) if t.as_str() == "hi"));
    assert!(matches!(cmds[2], DisplayCommand::SetBrightness(40)));
}

#[test]
fn host_audio_ring_drops_oldest() {
    let mut h = host();
    assert_eq!(h.start_audio_capture(), status::OK);
    assert!(h.audio_active);
    let incoming: Vec<u8> = (0..8200u32).map(|i| (i % 251) as u8).collect();
    let mut out = [0u8; 4];
    assert_eq!(h.read_audio(&incoming, &mut out), 4);
    // The 8 oldest bytes were dropped to make room.
    assert_eq!(out, [8, 9, 10, 11]);
    assert_eq!(h.get_audio_avail(), 8188);
    let mut big = vec![0u8; 1025];
    assert_eq!(h.read_audio(&[], &mut big), status::ERR_BOUNDS);
    assert_eq!(h.get_audio_avail(), 8188);
    assert_eq!(h.stop_audio_capture(), status::OK);
    assert!(!h.audio_active);
    assert_eq!(h.get_audio_avail(), 8188);
    assert_eq!(h.start_audio_capture(), status::OK);
    assert_eq!(h.get_audio_avail(), 0);
    let mut out2 = [7u8; 3];
    assert_eq!(h.read_audio(&[1, 2], &mut out2), 2);
    assert_eq!(out2, [1, 2, 7]);
}

#[test]
fn host_motor_speed_goes_through_the_bus() {
    let h = host();
    let mut motors = MotorBridge::new();
    let mut bus = MessageBus::new();
    assert_eq!(h.set_motor_speed(&motors, &mut bus, 300, 0), status::ERR_INVALID_ARG);
    assert_eq!(h.set_motor_speed(&motors, &mut bus, 0, -256), status::ERR_INVALID_ARG);
    assert_eq!(h.set_motor_speed(&motors, &mut bus, -255, 255), status::OK);
    assert_eq!(bus.pending_len(), 1);
    let i = bus.next_intent().unwrap();
    assert_eq!((i.left_speed, i.right_speed), (-255, 255));
    motors.set_motor_enabled(false);
    assert_eq!(h.set_motor_speed(&motors, &mut bus, 10, 10), status::ERR_BUSY);
    motors.set_motor_enabled(true);
    for _ in 0..8 {
        assert_eq!(h.set_motor_speed(&motors, &mut bus, 1, 1), status::OK);
    }
    assert_eq!(h.set_motor_speed(&motors, &mut bus, 1, 1), status::ERR_BUSY);
    assert_eq!(bus.get_routing_mode(), RoutingMode::SingleBoard);
}

#[test]
fn host_telemetry_calls() {
    let h = host();
    let mut q = TelemetryQueue::new();
    let mut imu = [0u8; 36];
    let t = ImuTelemetry::default();
    t.to_cdr(&mut imu);
    assert_eq!(h.emit_imu_telemetry(&mut q, &imu[..35]), status::ERR_BOUNDS);
    assert_eq!(h.emit_imu_telemetry(&mut q, &imu), status::OK);
    let mut odom = [0u8; 20];
    OdometryTelemetry::default().to_cdr(&mut odom);
    assert_eq!(h.emit_odom_telemetry(&mut q, &odom[..19]), status::ERR_BOUNDS);
    assert_eq!(h.emit_odom_telemetry(&mut q, &odom), status::OK);
    assert_eq!(h.get_telemetry_queue_len(&q), 2);
    for _ in 0..30 {
        assert_eq!(h.emit_odom_telemetry(&mut q, &odom), status::OK);
    }
    assert_eq!(h.emit_imu_telemetry(&mut q, &imu), status::ERR_BUSY);
    assert_eq!(h.get_telemetry_queue_len(&q), 32);
}

#[test]
fn host_inference_and_ota_status() {
    let h = host();
    let mut cell = InferenceCell::new();
    store_inference_result(&mut cell, InferenceResult { active: true, top_class: 3, confidence_pct: 90 });
    let mut short = [0u8; 11];
    assert_eq!(h.get_local_inference(&cell, &mut short), status::ERR_BOUNDS);
    let mut out = [0xAAu8; 13];
    assert_eq!(h.get_local_inference(&cell, &mut out), status::OK);
    assert_eq!(out, [1, 0, 0, 0, 3, 0, 0, 0, 90, 0, 0, 0, 0xAA]);
    let mut o = [0u8; 15];
    assert_eq!(h.get_ota_status(&mut o), status::ERR_BOUNDS);
    let mut o = [0u8; 16];
    assert_eq!(h.get_ota_status(&mut o), status::OK);
    assert_eq!(o, [0; 16]);
}

#[test]
fn host_audio_snapshots_for_inference() {
    let mut h = host();
    let mut snaps = SnapshotQueue::new();
    h.push_audio_for_inference(&mut snaps);
    let mut cell = InferenceCell::new();
    assert!(!sandos::firmware::router::run_fallback_inference(&mut snaps, &mut cell));
    let mut none = [0u8; 0];
    h.read_audio(&[200, 1, 2], &mut none);
    h.push_audio_for_inference(&mut snaps);
    assert!(sandos::firmware::router::run_fallback_inference(&mut snaps, &mut cell));
}

#[test]
fn host_rgb_led() {
    let mut h = host();
    assert_eq!(h.set_rgb_led(256, 0, 0), status::ERR_INVALID_ARG);
    assert_eq!(h.set_rgb_led(0, -1, 0), status::ERR_INVALID_ARG);
    assert_eq!(h.set_rgb_led(1, 2, 3), status::OK);
    assert_eq!(h.get_rgb_led(), (status::OK, (1, 2, 3)));
    let mut sensors = SensorState::new();
    assert_eq!(h.get_pitch_roll(&sensors), ImuReading { pitch_millideg: 0, roll_millideg: 0 });
    sensors.store_imu(ImuReading { pitch_millideg: 31_000, roll_millideg: -4 });
    assert_eq!(h.get_pitch_roll(&sensors), ImuReading { pitch_millideg: 31_000, roll_millideg: -4 });
}
