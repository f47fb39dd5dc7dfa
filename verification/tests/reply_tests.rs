//! Tests of the dashboard's replies and of the RGB LED pulse train.
use sandos::firmware::http::{parse_dec_u8, LedColorState};
use sandos::firmware::json::{
    push_dec, response_header, serve_api_stats, serve_dashboard, serve_led_get, serve_led_set,
    serve_server_stop, ServerClock, HTML_DASHBOARD,
};
use sandos::firmware::rgb_led::{
    ws2812_frame, Pulse, RgbLedDriver, WS2812_BIT_0_HIGH_TICKS, WS2812_BIT_1_HIGH_TICKS,
    WS2812_RESET_TICKS,
};

fn text(v: &[u8]) -> String {
    String::from_utf8(v.to_vec()).unwrap()
}

#[test]
fn decimal_digits() {
    for (n, s) in [(0u64, "0"), (7, "7"), (10, "10"), (255, "255"), (u64::MAX, "18446744073709551615")] {
        let mut out = b"x=".to_vec();
        push_dec(&mut out, n);
        assert_eq!(text(&out), format!("x={}", s));
    }
}

#[test]
fn reported_values_parse_back() {
    for v in 0..=255u8 {
        let mut out = Vec::new();
        push_dec(&mut out, v as u64);
        assert_eq!(parse_dec_u8(&out), Some(v));
    }
}

#[test]
fn header_layout() {
    let h = response_header("200 OK", "application/json", 42);
    assert_eq!(
        text(&h),
        "HTTP/1.0 200 OK\r\nContent-Type: application/json\r\nContent-Length: 42\r\nConnection: close\r\n\r\n"
    );
}

#[test]
fn stop_reply() {
    let body = r#"{"status":"stopping"}"#;
    let expected = format!(
        "HTTP/1.0 200 OK\r\nContent-Type: application/json\r\nContent-Length: {}\r\nConnection: close\r\n\r\n{}",
        body.len(),
        body
    );
    assert_eq!(text(&serve_server_stop()), expected);
}

#[test]
fn stats_reply() {
    let body = r#"{"uptime_secs":12,"psram_free":4096,"psram_used":512,"hot_swaps":3,"ip":"connected"}"#;
    let r = text(&serve_api_stats(12, 4096, 512, 3));
    assert!(r.starts_with("HTTP/1.0 200 OK\r\n"));
    assert!(r.contains(&format!("Content-Length: {}\r\n", body.len())));
    assert!(r.ends_with(&format!("\r\n\r\n{}", body)));
}

#[test]
fn led_get_reply_echoes_colour() {
    let mut s = LedColorState::new();
    s.set_led_color(255, 0, 17);
    let r = text(&serve_led_get(&s));
    assert!(r.ends_with("\r\n\r\n{\"r\":255,\"g\":0,\"b\":17}"));
    assert!(r.contains("Content-Length: 22\r\n"));
}

#[test]
fn led_set_reply_applies_valid_form() {
    let mut s = LedColorState::new();
    let r = text(&serve_led_set(&mut s, b"r=10&g=20&b=30"));
    assert!(r.starts_with("HTTP/1.0 200 OK\r\n"));
    assert!(r.ends_with("{\"status\":\"ok\",\"r\":10,\"g\":20,\"b\":30}"));
    assert_eq!(s.get_led_color(), (10, 20, 30));
}

#[test]
fn led_set_reply_refuses_bad_form() {
    let mut s = LedColorState::new();
    s.set_led_color(1, 2, 3);
    let r = text(&serve_led_set(&mut s, b"r=300&g=5"));
    assert!(r.starts_with("HTTP/1.0 400 Bad Request\r\n"));
    assert!(r.ends_with("{\"status\":\"error\",\"r\":0,\"g\":5,\"b\":0}"));
    assert_eq!(s.get_led_color(), (1, 2, 3));
}

#[test]
fn dashboard_reply_carries_page() {
    let r = serve_dashboard();
    let header = format!(
        "HTTP/1.0 200 OK\r\nContent-Type: text/html\r\nContent-Length: {}\r\nConnection: close\r\n\r\n",
        HTML_DASHBOARD.len()
    );
    assert_eq!(&r[..header.len()], header.as_bytes());
    assert_eq!(&r[header.len()..], HTML_DASHBOARD.as_bytes());
    assert!(HTML_DASHBOARD.starts_with("<!DOCTYPE html>"));
}

#[test]
fn server_clock_keeps_first_start() {
    let mut c = ServerClock::new();
    assert_eq!(c.uptime_secs(5_000_000), 0);
    c.record_start(2_000_000);
    c.record_start(9_000_000);
    assert_eq!(c.started_us, 2_000_000);
    assert_eq!(c.uptime_secs(7_500_000), 5);
}

#[test]
fn ws2812_frame_sends_grb_msb_first() {
    let f = ws2812_frame(0x01, 0x80, 0x00);
    assert_eq!(f.len(), 25);
    // Green 0x80: first bit one, rest zero.
    assert_eq!(f[0].length1, WS2812_BIT_1_HIGH_TICKS);
    for i in 1..8 {
        assert_eq!(f[i].length1, WS2812_BIT_0_HIGH_TICKS);
    }
    // Red 0x01: last of its eight bits is one.
    for i in 8..15 {
        assert_eq!(f[i].length1, WS2812_BIT_0_HIGH_TICKS);
    }
    assert_eq!(f[15], Pulse { level1: true, length1: 16, level2: false, length2: 9 });
    for i in 16..24 {
        assert_eq!(f[i], Pulse { level1: true, length1: 8, level2: false, length2: 17 });
    }
    assert_eq!(f[24], Pulse { level1: false, length1: WS2812_RESET_TICKS, level2: false, length2: 0 });
}

#[test]
fn rgb_led_driver_keeps_colour() {
    let mut d = RgbLedDriver::default();
    assert_eq!(d.get_color(), (0, 0, 0));
    d.set_color(1, 2, 3);
    assert_eq!(d.get_color(), (1, 2, 3));
    assert_eq!(d.pulse_frame(), ws2812_frame(1, 2, 3));
    d.off();
    assert_eq!(d.get_color(), (0, 0, 0));
    let off = d.pulse_frame();
    assert!(off[..24].iter().all(|p| p.length1 == WS2812_BIT_0_HIGH_TICKS));
}
