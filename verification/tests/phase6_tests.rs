//! Telemetry tests of the mock host.
use sandos::abi::{status, ImuTelemetry, OdometryTelemetry, TelemetryPacket, TELEMETRY_TX_CAPACITY};
use sandos::mock_host::MockHost;

#[test]
fn telemetry_queue_is_empty_by_default() {
    let host = MockHost::default();
    assert_eq!(host.telemetry_queue.len(), 0);
    assert_eq!(host.get_telemetry_queue_len(), 0);
}

#[test]
fn emit_imu_telemetry_enqueues_packet() {
    let mut host = MockHost::default();
    let imu = ImuTelemetry {
        sequence: 1,
        pitch_millideg: 5_000,
        roll_millideg: -2_000,
        ..Default::default()
    };
    let mut buf = [0u8; ImuTelemetry::SERIALIZED_SIZE];
    imu.to_cdr(&mut buf);
    assert_eq!(host.emit_imu_telemetry(&buf), status::OK);
    assert_eq!(host.telemetry_queue.len(), 1);
}

#[test]
fn emit_imu_telemetry_preserves_fields() {
    let mut host = MockHost::default();
    let sent = ImuTelemetry {
        sequence: 99,
        timestamp_us: 123_456,
        loop_time_us: 1_980,
        pitch_millideg: 30_000,
        roll_millideg: -10_000,
        yaw_rate_millideg_s: 500,
        linear_accel_x_mm_s2: 9_800,
        linear_accel_y_mm_s2: 0,
    };
    let mut buf = [0u8; ImuTelemetry::SERIALIZED_SIZE];
    sent.to_cdr(&mut buf);
    host.emit_imu_telemetry(&buf);

    match host.telemetry_queue[0] {
        TelemetryPacket::Imu(decoded) => assert_eq!(decoded, sent),
        _ => panic!("expected ImuTelemetry variant"),
    }
}

#[test]
fn emit_imu_telemetry_wrong_size_returns_err_bounds() {
    let mut host = MockHost::default();
    let short_buf = [0u8; 10];
    assert_eq!(host.emit_imu_telemetry(&short_buf), status::ERR_BOUNDS);
    assert!(host.telemetry_queue.is_empty());
}

#[test]
fn emit_odom_telemetry_enqueues_packet() {
    let mut host = MockHost::default();
    let odom = OdometryTelemetry {
        sequence: 3,
        left_speed: 100,
        right_speed: -80,
        ..Default::default()
    };
    let mut buf = [0u8; OdometryTelemetry::SERIALIZED_SIZE];
    odom.to_cdr(&mut buf);
    assert_eq!(host.emit_odom_telemetry(&buf), status::OK);
    assert_eq!(host.telemetry_queue.len(), 1);
}

#[test]
fn emit_odom_telemetry_preserves_fields() {
    let mut host = MockHost::default();
    let sent = OdometryTelemetry {
        sequence: 7,
        timestamp_us: 50_000,
        loop_time_us: 2_005,
        left_speed: 200,
        right_speed: -200,
    };
    let mut buf = [0u8; OdometryTelemetry::SERIALIZED_SIZE];
    sent.to_cdr(&mut buf);
    host.emit_odom_telemetry(&buf);

    match host.telemetry_queue[0] {
        TelemetryPacket::Odometry(decoded) => assert_eq!(decoded, sent),
        _ => panic!("expected OdometryTelemetry variant"),
    }
}

#[test]
fn emit_odom_telemetry_wrong_size_returns_err_bounds() {
    let mut host = MockHost::default();
    let short_buf = [0u8; 5];
    assert_eq!(host.emit_odom_telemetry(&short_buf), status::ERR_BOUNDS);
    assert!(host.telemetry_queue.is_empty());
}

#[test]
fn get_telemetry_queue_len_increments_per_push() {
    let mut host = MockHost::default();
    let imu = ImuTelemetry::default();
    let mut buf = [0u8; ImuTelemetry::SERIALIZED_SIZE];
    imu.to_cdr(&mut buf);

    for i in 1..=5 {
        host.emit_imu_telemetry(&buf);
        assert_eq!(host.get_telemetry_queue_len(), i);
    }
}

#[test]
fn telemetry_queue_back_pressure_returns_err_busy() {
    let mut host = MockHost::default();
    let imu = ImuTelemetry::default();
    let mut buf = [0u8; ImuTelemetry::SERIALIZED_SIZE];
    imu.to_cdr(&mut buf);

    // Fill the queue to capacity.
    for _ in 0..TELEMETRY_TX_CAPACITY {
        assert_eq!(host.emit_imu_telemetry(&buf), status::OK);
    }
    // Next push must fail with ERR_BUSY.
    assert_eq!(host.emit_imu_telemetry(&buf), status::ERR_BUSY);
    assert_eq!(host.telemetry_queue.len(), TELEMETRY_TX_CAPACITY);
}

#[test]
fn mixed_telemetry_packets_are_ordered_correctly() {
    let mut host = MockHost::default();
    let imu = ImuTelemetry {
        sequence: 1,
        ..Default::default()
    };
    let odom = OdometryTelemetry {
        sequence: 2,
        ..Default::default()
    };

    let mut imu_buf = [0u8; ImuTelemetry::SERIALIZED_SIZE];
    imu.to_cdr(&mut imu_buf);
    let mut odom_buf = [0u8; OdometryTelemetry::SERIALIZED_SIZE];
    odom.to_cdr(&mut odom_buf);

    host.emit_imu_telemetry(&imu_buf);
    host.emit_odom_telemetry(&odom_buf);

    assert_eq!(host.telemetry_queue.len(), 2);
    assert!(matches!(host.telemetry_queue[0], TelemetryPacket::Imu(_)));
    assert!(matches!(
        host.telemetry_queue[1],
        TelemetryPacket::Odometry(_)
    ));
}
