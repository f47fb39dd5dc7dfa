//! IMU tests of the mock host.
use sandos::abi::{status, ImuReading};
use sandos::mock_host::MockHost;

#[test]
fn imu_reading_defaults_to_zero() {
    let host = MockHost::default();
    let reading = host.get_pitch_roll();
    assert_eq!(reading.pitch_millideg, 0);
    assert_eq!(reading.roll_millideg, 0);
}

#[test]
fn get_pitch_roll_returns_injected_value() {
    let mut host = MockHost::default();
    host.imu_reading = ImuReading {
        pitch_millideg: 15_000,
        roll_millideg: -8_500,
    };
    let r = host.get_pitch_roll();
    assert_eq!(r.pitch_millideg, 15_000);
    assert_eq!(r.roll_millideg, -8_500);
}

#[test]
fn get_pitch_roll_extreme_values() {
    let mut host = MockHost::default();
    host.imu_reading = ImuReading {
        pitch_millideg: i32::MAX,
        roll_millideg: i32::MIN,
    };
    let r = host.get_pitch_roll();
    assert_eq!(r.pitch_millideg, i32::MAX);
    assert_eq!(r.roll_millideg, i32::MIN);
}

#[test]
fn imu_reading_encode_decode_roundtrip_positive() {
    let reading = ImuReading {
        pitch_millideg: 45_000,
        roll_millideg: 30_000,
    };
    assert_eq!(ImuReading::decode(reading.encode()), reading);
}

#[test]
fn imu_reading_encode_decode_roundtrip_negative() {
    let reading = ImuReading {
        pitch_millideg: -90_000,
        roll_millideg: -180_000,
    };
    assert_eq!(ImuReading::decode(reading.encode()), reading);
}

#[test]
fn imu_reading_encode_decode_zero() {
    let reading = ImuReading::default();
    assert_eq!(ImuReading::decode(reading.encode()), reading);
}
