//! Tests of the sample guest's logic and of the companion agent.
use sandos::abi::{cmd, ImuTelemetry, OdometryTelemetry};
use sandos::companion::{set_expression, AgentState, Companion, Expression};
use sandos::guest::{
    balance_duty, handler_for, imu_telemetry_payload, inference_drive, odom_telemetry_payload,
    telemetry_has_room, write_i16_le, write_i32_le, write_u32_le, write_u64_le, GuestHandler,
    NOMINAL_LOOP_TIME_US,
};

#[test]
fn little_endian_writers() {
    let mut buf = [0xAAu8; 10];
    write_u32_le(&mut buf, 1, 0x1234_5678);
    assert_eq!(buf, [0xAA, 0x78, 0x56, 0x34, 0x12, 0xAA, 0xAA, 0xAA, 0xAA, 0xAA]);
    write_i16_le(&mut buf, 8, -2);
    assert_eq!(&buf[8..], &[0xFE, 0xFF]);
    write_i32_le(&mut buf, 0, -1);
    assert_eq!(&buf[..4], &[0xFF; 4]);
    let mut big = [0u8; 8];
    write_u64_le(&mut big, 0, 0x0102_0304_0506_0708);
    assert_eq!(big, [8, 7, 6, 5, 4, 3, 2, 1]);
}

#[test]
fn commands_select_handlers() {
    assert_eq!(handler_for(cmd::TOGGLE_LED as i32), Some(GuestHandler::ToggleLed));
    assert_eq!(handler_for(cmd::DRAW_EYE as i32), Some(GuestHandler::DrawHappyEye));
    assert_eq!(handler_for(cmd::QUERY_LOCAL_INFERENCE as i32), Some(GuestHandler::QueryLocalInference));
    assert_eq!(handler_for(0x0100 + cmd::SET_MOTOR_SPEED as i32), Some(GuestHandler::Balance));
    assert_eq!(handler_for(0x7F), None);
    assert_eq!(handler_for(-255), Some(GuestHandler::ToggleLed));
}

#[test]
fn balance_duty_follows_pitch() {
    assert_eq!(balance_duty(45_999), 45);
    assert_eq!(balance_duty(-1_999), -1);
    assert_eq!(balance_duty(300_000), 255);
    assert_eq!(balance_duty(i32::MIN), -255);
}

#[test]
fn inference_drives_motors() {
    assert_eq!(inference_drive(1, 1, 60), Some((100, 100)));
    assert_eq!(inference_drive(1, 2, 99), Some((-100, 100)));
    assert_eq!(inference_drive(1, 3, 60), Some((100, -100)));
    assert_eq!(inference_drive(1, 4, 60), Some((-100, -100)));
    assert_eq!(inference_drive(1, 7, 60), Some((0, 0)));
    assert_eq!(inference_drive(1, 1, 59), None);
    assert_eq!(inference_drive(0, 1, 100), None);
    assert!(telemetry_has_room(27));
    assert!(!telemetry_has_room(28));
}

#[test]
fn guest_payloads_decode_on_the_host() {
    let imu = imu_telemetry_payload(9, 5_000, -1_500, 2_500);
    let t = ImuTelemetry::from_cdr(&imu).expect("decodes");
    assert_eq!(t.sequence, 9);
    assert_eq!(t.timestamp_us, 5_000);
    assert_eq!(t.loop_time_us, NOMINAL_LOOP_TIME_US);
    assert_eq!((t.pitch_millideg, t.roll_millideg), (-1_500, 2_500));
    assert_eq!((t.yaw_rate_millideg_s, t.linear_accel_x_mm_s2, t.linear_accel_y_mm_s2), (0, 0, 0));
    let odom = odom_telemetry_payload(3, 7);
    let o = OdometryTelemetry::from_cdr(&odom).expect("decodes");
    assert_eq!((o.sequence, o.timestamp_us, o.left_speed, o.right_speed), (3, 7, 0, 0));
}

#[test]
fn companion_starts_idle() {
    let c = Companion::new();
    assert!(matches!(c.state, AgentState::Idle));
    assert!(c.memory.is_empty());
    set_expression(Expression::Happy);
}
