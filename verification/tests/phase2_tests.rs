//! Display and audio tests of the mock host.
use sandos::abi::{status, EyeExpression, MAX_AUDIO_READ, MAX_BRIGHTNESS, MAX_TEXT_BYTES};
use sandos::mock_host::MockHost;

#[test]
fn draw_eye_neutral_expression() {
    let mut host = MockHost::default();
    let result = host.draw_eye(EyeExpression::Neutral as i32);
    assert_eq!(result, status::OK);
    assert_eq!(host.display.current_expression, Some(EyeExpression::Neutral));
}

#[test]
fn draw_eye_all_valid_expressions() {
    let mut host = MockHost::default();
    for i in 0..=6i32 {
        let result = host.draw_eye(i);
        assert_eq!(result, status::OK, "expression {} should be valid", i);
        let expr = EyeExpression::from_i32(i).unwrap();
        assert_eq!(host.display.current_expression, Some(expr));
    }
}

#[test]
fn draw_eye_invalid_expression_returns_error() {
    let mut host = MockHost::default();
    assert_eq!(host.draw_eye(7),   status::ERR_INVALID_ARG);
    assert_eq!(host.draw_eye(-1),  status::ERR_INVALID_ARG);
    assert_eq!(host.draw_eye(255), status::ERR_INVALID_ARG);
    // Expression must not have changed.
    assert_eq!(host.display.current_expression, None);
}

#[test]
fn write_text_stores_string() {
    let mut host = MockHost::default();
    let result = host.write_text(b"Hello, Robot!");
    assert_eq!(result, status::OK);
    assert_eq!(host.display.display_text, "Hello, Robot!");
}

#[test]
fn write_text_empty_string() {
    let mut host = MockHost::default();
    let result = host.write_text(b"");
    assert_eq!(result, status::OK);
    assert_eq!(host.display.display_text, "");
}

#[test]
fn write_text_max_length_is_accepted() {
    let mut host = MockHost::default();
    let text = vec![b'x'; MAX_TEXT_BYTES as usize];
    let result = host.write_text(&text);
    assert_eq!(result, status::OK);
}

#[test]
fn write_text_exceeding_max_length_returns_bounds_error() {
    let mut host = MockHost::default();
    let text = vec![b'x'; MAX_TEXT_BYTES as usize + 1];
    let result = host.write_text(&text);
    assert_eq!(result, status::ERR_BOUNDS);
    // Display text must not have been updated.
    assert!(host.display.display_text.is_empty());
}

#[test]
fn write_text_invalid_utf8_returns_error() {
    let mut host = MockHost::default();
    let result = host.write_text(&[0xFF, 0xFE, 0xFD]);
    assert_eq!(result, status::ERR_INVALID_ARG);
}

#[test]
fn set_brightness_valid_range() {
    let mut host = MockHost::default();
    assert_eq!(host.set_brightness(0),               status::OK);
    assert_eq!(host.display.brightness, 0);
    assert_eq!(host.set_brightness(128),              status::OK);
    assert_eq!(host.display.brightness, 128);
    assert_eq!(host.set_brightness(MAX_BRIGHTNESS),   status::OK);
    assert_eq!(host.display.brightness, MAX_BRIGHTNESS as u8);
}

#[test]
fn set_brightness_out_of_range_returns_error() {
    let mut host = MockHost::default();
    assert_eq!(host.set_brightness(-1),                  status::ERR_INVALID_ARG);
    assert_eq!(host.set_brightness(MAX_BRIGHTNESS + 1),  status::ERR_INVALID_ARG);
}

#[test]
fn audio_inactive_by_default() {
    let host = MockHost::default();
    assert!(!host.audio_active);
    assert_eq!(host.get_audio_avail(), 0);
}

#[test]
fn start_audio_sets_active_flag() {
    let mut host = MockHost::default();
    let result = host.start_audio_capture();
    assert_eq!(result, status::OK);
    assert!(host.audio_active);
}

#[test]
fn stop_audio_clears_active_flag() {
    let mut host = MockHost::default();
    host.start_audio_capture();
    let result = host.stop_audio_capture();
    assert_eq!(result, status::OK);
    assert!(!host.audio_active);
}

#[test]
fn read_audio_returns_bytes() {
    let mut host = MockHost::default();
    host.feed_audio(&[1, 2, 3, 4, 5]);
    let mut buf = [0u8; 5];
    let n = host.read_audio(&mut buf);
    assert_eq!(n, 5);
    assert_eq!(&buf, &[1, 2, 3, 4, 5]);
    assert_eq!(host.get_audio_avail(), 0);
}

#[test]
fn read_audio_partial_read() {
    let mut host = MockHost::default();
    host.feed_audio(&[10, 20, 30, 40, 50]);
    let mut buf = [0u8; 3];
    let n = host.read_audio(&mut buf);
    assert_eq!(n, 3);
    assert_eq!(&buf, &[10, 20, 30]);
    assert_eq!(host.get_audio_avail(), 2);
}

#[test]
fn read_audio_empty_buffer_returns_zero() {
    let mut host = MockHost::default();
    let mut buf = [0u8; 10];
    let n = host.read_audio(&mut buf);
    assert_eq!(n, 0);
}

#[test]
fn read_audio_exceeding_max_size_returns_bounds_error() {
    let mut host = MockHost::default();
    let large_buf_len = MAX_AUDIO_READ as usize + 1;
    let mut buf = vec![0u8; large_buf_len];
    let result = host.read_audio(&mut buf);
    assert_eq!(result, status::ERR_BOUNDS);
}

#[test]
fn start_audio_clears_previous_buffer() {
    let mut host = MockHost::default();
    host.feed_audio(&[1, 2, 3]);
    host.start_audio_capture();
    // Buffer should be cleared on (re-)start.
    assert_eq!(host.get_audio_avail(), 0);
}
