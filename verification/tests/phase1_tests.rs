//! LED, uptime, debug log, pointer validation and packet tests of the mock host.
use sandos::abi::{cmd, status, validate_ptr_len, EspNowCommand, ESPNOW_MAX_PAYLOAD,};
use sandos::mock_host::MockHost;

#[test]
fn led_starts_off() {
    let host = MockHost::default();
    assert!(!host.led_on);
    assert_eq!(host.toggle_count, 0);
}

#[test]
fn toggle_led_turns_it_on() {
    let mut host = MockHost::default();
    let status = host.toggle_led();
    assert_eq!(status, status::OK);
    assert!(host.led_on);
    assert_eq!(host.toggle_count, 1);
}

#[test]
fn toggle_led_turns_it_back_off() {
    let mut host = MockHost::default();
    host.toggle_led();
    let status = host.toggle_led();
    assert_eq!(status, status::OK);
    assert!(!host.led_on);
    assert_eq!(host.toggle_count, 2);
}

#[test]
fn get_uptime_ms_returns_simulated_value() {
    let mut host = MockHost::default();
    host.simulated_uptime_ms = 12_345;
    assert_eq!(host.get_uptime_ms(), 12_345);
}

#[test]
fn debug_log_records_message() {
    let mut host = MockHost::default();
    let status = host.debug_log(b"hello from wasm");
    assert_eq!(status, status::OK);
    assert_eq!(host.log_messages.len(), 1);
    assert_eq!(host.log_messages[0], "hello from wasm");
}

#[test]
fn debug_log_invalid_utf8_returns_error() {
    let mut host = MockHost::default();
    let status = host.debug_log(&[0xFF, 0xFE]);
    assert_eq!(status, status::ERR_INVALID_ARG);
    assert!(host.log_messages.is_empty());
}

#[test]
fn validate_ptr_len_ok_for_in_bounds_region() {
    assert!(validate_ptr_len(0, 64, 65536).is_ok());
    assert!(validate_ptr_len(65472, 64, 65536).is_ok());
}

#[test]
fn validate_ptr_len_err_for_overflow() {
    assert!(validate_ptr_len(65473, 64, 65536).is_err());
    assert!(validate_ptr_len(u32::MAX, 1, 65536).is_err());
}

#[test]
fn validate_ptr_len_err_for_zero_memory() {
    assert!(validate_ptr_len(0, 1, 0).is_err());
}

#[test]
fn phase1_tests_espnow_command_magic_valid() {
    let cmd = EspNowCommand {
        magic: EspNowCommand::MAGIC,
        cmd_id: cmd::TOGGLE_LED,
        payload_len: 0,
        payload: [0; ESPNOW_MAX_PAYLOAD - 4],
    };
    assert!(cmd.is_valid());
}

#[test]
fn phase1_tests_espnow_command_magic_invalid() {
    let cmd = EspNowCommand {
        magic: [0x00, 0x00],
        cmd_id: 0,
        payload_len: 0,
        payload: [0; ESPNOW_MAX_PAYLOAD - 4],
    };
    assert!(!cmd.is_valid());
}
