//! Tests of the ABI definitions: expressions, pointer validation, packets,
//! IMU packing, intents, CDR serialisation and telemetry packets.
use sandos::abi::{cmd, status, validate_ptr_len, CdrSerializer, EspNowCommand, EyeExpression, ImuReading, ImuTelemetry, MovementIntent, OdometryTelemetry, RoutingMode, TelemetryPacket, DEAD_MANS_SWITCH_MS, ESPNOW_MAX_PAYLOAD, MAX_MOTOR_SPEED, TELEMETRY_DECIMATION, TELEMETRY_TX_CAPACITY};

#[test]
fn eye_expression_round_trips() {
    for i in 0..=6i32 {
        let expr = EyeExpression::from_i32(i).expect("valid expression");
        assert_eq!(expr as i32, i);
    }
}

#[test]
fn unknown_eye_expression_returns_none() {
    assert!(EyeExpression::from_i32(-1).is_none());
    assert!(EyeExpression::from_i32(7).is_none());
    assert!(EyeExpression::from_i32(255).is_none());
}

#[test]
fn validate_ptr_len_in_bounds() {
    assert!(validate_ptr_len(0, 100, 1024).is_ok());
    assert!(validate_ptr_len(1000, 24, 1024).is_ok());
    assert!(validate_ptr_len(1024, 0, 1024).is_ok());
}

#[test]
fn validate_ptr_len_out_of_bounds() {
    assert_eq!(validate_ptr_len(1000, 25, 1024), Err(status::ERR_BOUNDS));
    assert_eq!(validate_ptr_len(u32::MAX, 1, 1024), Err(status::ERR_BOUNDS));
}

#[test]
fn lib_espnow_command_magic_valid() {
    let cmd = EspNowCommand {
        magic: EspNowCommand::MAGIC,
        cmd_id: cmd::TOGGLE_LED,
        payload_len: 0,
        payload: [0; ESPNOW_MAX_PAYLOAD - 4],
    };
    assert!(cmd.is_valid());
}

#[test]
fn lib_espnow_command_magic_invalid() {
    let cmd = EspNowCommand {
        magic: [0xFF, 0xFF],
        cmd_id: 0,
        payload_len: 0,
        payload: [0; ESPNOW_MAX_PAYLOAD - 4],
    };
    assert!(!cmd.is_valid());
}

#[test]
fn imu_reading_encode_decode_roundtrip() {
    let reading = ImuReading {
        pitch_millideg: 45_000,
        roll_millideg: -12_500,
    };
    let decoded = ImuReading::decode(reading.encode());
    assert_eq!(decoded.pitch_millideg, 45_000);
    assert_eq!(decoded.roll_millideg, -12_500);
}

#[test]
fn imu_reading_zero_roundtrip() {
    let reading = ImuReading::default();
    assert_eq!(ImuReading::decode(reading.encode()), reading);
}

#[test]
fn imu_reading_negative_pitch_roundtrip() {
    let reading = ImuReading {
        pitch_millideg: -90_000,
        roll_millideg: 180_000,
    };
    let decoded = ImuReading::decode(reading.encode());
    assert_eq!(decoded.pitch_millideg, -90_000);
    assert_eq!(decoded.roll_millideg, 180_000);
}

#[test]
fn motor_speed_bounds_are_symmetric() {
    assert_eq!(MAX_MOTOR_SPEED, 255);
    assert!(-MAX_MOTOR_SPEED <= 0);
}

#[test]
fn motor_cmd_ids_are_unique() {
    let ids = [
        cmd::TOGGLE_LED,
        cmd::LOAD_WASM,
        cmd::DRAW_EYE,
        cmd::WRITE_TEXT,
        cmd::CLEAR_DISPLAY,
        cmd::SET_MOTOR_SPEED,
        cmd::EMERGENCY_STOP,
        cmd::EMIT_IMU_TELEMETRY,
        cmd::EMIT_ODOM_TELEMETRY,
    ];
    let mut seen = std::collections::HashSet::new();
    for id in ids {
        assert!(seen.insert(id), "duplicate command ID: 0x{:02X}", id);
    }
}

#[test]
fn movement_intent_new() {
    let intent = MovementIntent::new(100, -50);
    assert_eq!(intent.left_speed, 100);
    assert_eq!(intent.right_speed, -50);
}

#[test]
fn movement_intent_zero() {
    let intent = MovementIntent::zero();
    assert_eq!(intent.left_speed, 0);
    assert_eq!(intent.right_speed, 0);
}

#[test]
fn movement_intent_default_is_zero() {
    let intent = MovementIntent::default();
    assert_eq!(intent.left_speed, 0);
    assert_eq!(intent.right_speed, 0);
}

#[test]
fn routing_mode_default_is_single_board() {
    assert_eq!(RoutingMode::default(), RoutingMode::SingleBoard);
}

#[test]
fn routing_mode_discriminants_are_stable() {
    assert_eq!(RoutingMode::SingleBoard as u8, 0);
    assert_eq!(RoutingMode::Distributed  as u8, 1);
}

#[test]
fn dead_mans_switch_timeout_is_50ms() {
    assert_eq!(DEAD_MANS_SWITCH_MS, 50);
}

#[test]
fn cdr_serializer_write_u8() {
    let mut s = CdrSerializer::<4>::new();
    s.write_u8(0xAB).unwrap();
    assert_eq!(s.as_bytes(), &[0xAB]);
    assert_eq!(s.len(), 1);
}

#[test]
fn cdr_serializer_write_u16_le() {
    let mut s = CdrSerializer::<4>::new();
    s.write_u16(0x1234).unwrap();
    assert_eq!(s.as_bytes(), &[0x34, 0x12]);
}

#[test]
fn cdr_serializer_write_i16_le() {
    let mut s = CdrSerializer::<4>::new();
    s.write_i16(-1).unwrap();
    assert_eq!(s.as_bytes(), &[0xFF, 0xFF]);
}

#[test]
fn cdr_serializer_write_u32_le() {
    let mut s = CdrSerializer::<8>::new();
    s.write_u32(0x12345678).unwrap();
    assert_eq!(s.as_bytes(), &[0x78, 0x56, 0x34, 0x12]);
}

#[test]
fn cdr_serializer_write_u64_le() {
    let mut s = CdrSerializer::<8>::new();
    s.write_u64(0x0102030405060708u64).unwrap();
    assert_eq!(s.as_bytes(), &[0x08, 0x07, 0x06, 0x05, 0x04, 0x03, 0x02, 0x01]);
}

#[test]
fn cdr_serializer_overflow_returns_err() {
    let mut s = CdrSerializer::<2>::new();
    s.write_u16(0x1234).unwrap();
    // Next write must fail — buffer is full.
    assert!(s.write_u8(0x00).is_err());
    assert!(s.write_u16(0x0000).is_err());
}

#[test]
fn cdr_serializer_is_empty_after_new() {
    let s = CdrSerializer::<8>::new();
    assert!(s.is_empty());
    assert_eq!(s.len(), 0);
}

#[test]
fn imu_telemetry_serialized_size_is_36() {
    assert_eq!(ImuTelemetry::SERIALIZED_SIZE, 36);
}

#[test]
fn imu_telemetry_cdr_roundtrip() {
    let sent = ImuTelemetry {
        sequence:              42,
        timestamp_us:          1_000_000,
        loop_time_us:          1_987,
        pitch_millideg:        15_000,
        roll_millideg:         -3_500,
        yaw_rate_millideg_s:   200,
        linear_accel_x_mm_s2:  9_810,
        linear_accel_y_mm_s2:  0,
    };
    let mut buf = [0u8; ImuTelemetry::SERIALIZED_SIZE];
    let written = sent.to_cdr(&mut buf);
    assert_eq!(written, ImuTelemetry::SERIALIZED_SIZE);
    let decoded = ImuTelemetry::from_cdr(&buf).expect("must decode");
    assert_eq!(decoded, sent);
}

#[test]
fn imu_telemetry_to_cdr_returns_0_for_short_buffer() {
    let imu = ImuTelemetry::default();
    let mut buf = [0u8; 10]; // too short
    assert_eq!(imu.to_cdr(&mut buf), 0);
}

#[test]
fn imu_telemetry_from_cdr_returns_none_for_short_buffer() {
    let buf = [0u8; 10]; // too short
    assert!(ImuTelemetry::from_cdr(&buf).is_none());
}

#[test]
fn imu_telemetry_negative_values_roundtrip() {
    let sent = ImuTelemetry {
        pitch_millideg: i32::MIN,
        roll_millideg:  i32::MAX,
        ..Default::default()
    };
    let mut buf = [0u8; ImuTelemetry::SERIALIZED_SIZE];
    sent.to_cdr(&mut buf);
    let decoded = ImuTelemetry::from_cdr(&buf).unwrap();
    assert_eq!(decoded.pitch_millideg, i32::MIN);
    assert_eq!(decoded.roll_millideg,  i32::MAX);
}

#[test]
fn odom_telemetry_serialized_size_is_20() {
    assert_eq!(OdometryTelemetry::SERIALIZED_SIZE, 20);
}

#[test]
fn odom_telemetry_cdr_roundtrip() {
    let sent = OdometryTelemetry {
        sequence:     7,
        timestamp_us: 500_000,
        loop_time_us: 2_001,
        left_speed:   127,
        right_speed:  -127,
    };
    let mut buf = [0u8; OdometryTelemetry::SERIALIZED_SIZE];
    let written = sent.to_cdr(&mut buf);
    assert_eq!(written, OdometryTelemetry::SERIALIZED_SIZE);
    let decoded = OdometryTelemetry::from_cdr(&buf).expect("must decode");
    assert_eq!(decoded, sent);
}

#[test]
fn odom_telemetry_to_cdr_returns_0_for_short_buffer() {
    let odom = OdometryTelemetry::default();
    let mut buf = [0u8; 5]; // too short
    assert_eq!(odom.to_cdr(&mut buf), 0);
}

#[test]
fn telemetry_packet_imu_serialize_roundtrip() {
    let imu = ImuTelemetry {
        sequence: 1,
        pitch_millideg: 5_000,
        roll_millideg: -2_000,
        ..Default::default()
    };
    let packet = TelemetryPacket::Imu(imu);
    let mut buf = [0u8; TelemetryPacket::MAX_SERIALIZED_SIZE];
    let written = packet.serialize(&mut buf);
    assert_eq!(written, 1 + ImuTelemetry::SERIALIZED_SIZE);
    assert_eq!(buf[0], TelemetryPacket::TYPE_IMU);

    let decoded = TelemetryPacket::deserialize(&buf[..written]).expect("must decode");
    match decoded {
        TelemetryPacket::Imu(d) => {
            assert_eq!(d.pitch_millideg, 5_000);
            assert_eq!(d.roll_millideg, -2_000);
        }
        _ => panic!("wrong variant"),
    }
}

#[test]
fn telemetry_packet_odometry_serialize_roundtrip() {
    let odom = OdometryTelemetry {
        left_speed: 100, right_speed: -80, ..Default::default()
    };
    let packet = TelemetryPacket::Odometry(odom);
    let mut buf = [0u8; TelemetryPacket::MAX_SERIALIZED_SIZE];
    let written = packet.serialize(&mut buf);
    assert_eq!(written, 1 + OdometryTelemetry::SERIALIZED_SIZE);
    assert_eq!(buf[0], TelemetryPacket::TYPE_ODOMETRY);

    let decoded = TelemetryPacket::deserialize(&buf[..written]).unwrap();
    match decoded {
        TelemetryPacket::Odometry(d) => {
            assert_eq!(d.left_speed, 100);
            assert_eq!(d.right_speed, -80);
        }
        _ => panic!("wrong variant"),
    }
}

#[test]
fn telemetry_packet_deserialize_empty_returns_none() {
    assert!(TelemetryPacket::deserialize(&[]).is_none());
}

#[test]
fn telemetry_packet_deserialize_unknown_discriminant_returns_none() {
    let buf = [0xFF, 0x00, 0x00];
    assert!(TelemetryPacket::deserialize(&buf).is_none());
}

#[test]
fn telemetry_packet_max_serialized_size_matches_imu() {
    assert_eq!(TelemetryPacket::MAX_SERIALIZED_SIZE, 1 + ImuTelemetry::SERIALIZED_SIZE);
}

#[test]
fn telemetry_tx_capacity_is_32() {
    assert_eq!(TELEMETRY_TX_CAPACITY, 32);
}

#[test]
fn telemetry_decimation_gives_100_pps() {
    // At 500 Hz with decimation 5: 500 / 5 = 100 pps.
    let pps = 500u64 / TELEMETRY_DECIMATION;
    assert_eq!(pps, 100);
}

#[test]
fn cdr_length_is_the_width_of_the_accepted_writes() {
    let mut s = CdrSerializer::<8>::new();
    assert!(s.write_u32(1).is_ok());
    assert!(s.write_u64(2).is_err());
    assert!(s.write_i16(-3).is_ok());
    assert!(s.write_u16(4).is_ok());
    assert!(s.write_u8(5).is_err());
    assert_eq!(s.len(), 8);
    assert_eq!(s.as_bytes().len(), 8);
    assert!(!s.is_empty());
}
