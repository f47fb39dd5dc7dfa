//! Tests of the screen: the strip buffer, the UI state machine and the
//! display driver's command queue.
use sandos::abi::status;
use sandos::abi::EyeExpression;
use sandos::firmware::display::{apply_command, DisplayCommand, DisplayDriver};
use sandos::firmware::strip::{StripBuffer, DISPLAY_HEIGHT, DISPLAY_WIDTH, STRIP_MAX_BYTES};
use sandos::firmware::ui::{
    landscape_point, Face, MetricsData, SystemReadings, TouchAction, UiManager, UiState,
    MENU_HIDE_OFFSET, MENU_SHOW_OFFSET, RKUN_CENTER_X, RKUN_MENU_X, SRAM_TOTAL,
};

fn pixel(bytes: &[u8], width: usize, x: usize, row: usize) -> (u8, u8) {
    let i = (row * width + x) * 2;
    (bytes[i], bytes[i + 1])
}

fn readings() -> SystemReadings {
    SystemReadings {
        uptime_ms: 12_345,
        heap_free: 100_000,
        heap_used: 50_000,
        cpu0_pct: 40,
        cpu1_pct: 7,
        battery_mv: 3_900,
        wifi_status: 2,
        wifi_ip: Some([192, 168, 1, 20]),
        temp_tenths: 412,
    }
}

// ── Strip buffer ────────────────────────────────────────────────────────────

#[test]
fn strip_starts_cleared_to_background() {
    let s = StripBuffer::new(4, 2, 0x1234);
    let bytes = s.as_bytes();
    assert_eq!(bytes.len(), 16);
    for i in 0..8 {
        assert_eq!((bytes[2 * i], bytes[2 * i + 1]), (0x12, 0x34));
    }
    assert_eq!(s.size(), (DISPLAY_WIDTH, DISPLAY_HEIGHT));
}

#[test]
fn strip_of_full_capacity() {
    let s = StripBuffer::new(240, 30, 0xFFFF);
    assert_eq!(s.as_bytes().len(), STRIP_MAX_BYTES);
    assert!(s.as_bytes().iter().all(|&b| b == 0xFF));
}

#[test]
fn strip_fill_solid_is_clipped() {
    let mut s = StripBuffer::new(4, 2, 0x1234);
    s.fill_solid(1, 0, 2, 1, 0xABCD);
    let b = s.as_bytes();
    assert_eq!(pixel(b, 4, 0, 0), (0x12, 0x34));
    assert_eq!(pixel(b, 4, 1, 0), (0xAB, 0xCD));
    assert_eq!(pixel(b, 4, 2, 0), (0xAB, 0xCD));
    assert_eq!(pixel(b, 4, 3, 0), (0x12, 0x34));
    assert_eq!(pixel(b, 4, 1, 1), (0x12, 0x34));
    // A rectangle reaching past every edge paints exactly the strip.
    s.fill_solid(-5, -5, 100, 100, 0x0F0F);
    assert!(s.as_bytes().chunks(2).all(|p| p == [0x0F, 0x0F]));
}

#[test]
fn strip_discards_pixels_outside() {
    let mut s = StripBuffer::new(4, 2, 0);
    s.draw_iter(&[(0, 5, 0xFFFF), (-1, 0, 0xFFFF), (4, 1, 0xFFFF), (3, 1, 0xBEEF)]);
    let b = s.as_bytes();
    assert_eq!(pixel(b, 4, 3, 1), (0xBE, 0xEF));
    let lit = b.chunks(2).filter(|p| *p != [0, 0]).count();
    assert_eq!(lit, 1);
}

#[test]
fn strip_begin_moves_and_clears() {
    let mut s = StripBuffer::new(4, 2, 0x00FF);
    s.fill_solid(0, 0, 4, 2, 0xAAAA);
    s.begin_strip(2, 1);
    assert_eq!(s.as_bytes(), &[0x00, 0xFF, 0x00, 0xFF, 0x00, 0xFF, 0x00, 0xFF]);
    s.draw_iter(&[(1, 2, 0x1122), (1, 1, 0x3344)]);
    assert_eq!(pixel(s.as_bytes(), 4, 1, 0), (0x11, 0x22));
    s.clear(0x5566);
    assert!(s.as_bytes().chunks(2).all(|p| p == [0x55, 0x66]));
}

#[test]
fn strip_fill_contiguous_runs_row_by_row() {
    let mut s = StripBuffer::new(4, 2, 0);
    s.fill_contiguous(1, 0, 2, 2, &[1, 2, 3, 4, 5]);
    let b = s.as_bytes();
    assert_eq!(pixel(b, 4, 1, 0), (0, 1));
    assert_eq!(pixel(b, 4, 2, 0), (0, 2));
    assert_eq!(pixel(b, 4, 1, 1), (0, 3));
    assert_eq!(pixel(b, 4, 2, 1), (0, 4));
    // The fifth colour lands on the row below the strip and is dropped.
    assert_eq!(b.chunks(2).filter(|p| *p != [0, 0]).count(), 4);
}

#[test]
fn strip_fill_contiguous_skips_area_outside() {
    let mut s = StripBuffer::new(4, 2, 0);
    // Area rows 5..6 lie below the strip; the run would wrap back into
    // view were it drawn, but it is skipped as a whole.
    s.fill_contiguous(0, -3, 1, 1, &[9, 9, 9, 9, 9]);
    assert!(s.as_bytes().iter().all(|&b| b == 0));
}

// ── UI state machine ────────────────────────────────────────────────────────

#[test]
fn ui_boot_state() {
    let mut u = UiManager::new();
    assert_eq!(u.state, UiState::Idle);
    assert_eq!(u.expression, Face::Neutral);
    assert_eq!(u.r_kun_x, RKUN_CENTER_X);
    assert_eq!(u.menu_offset, MENU_HIDE_OFFSET);
    assert!(u.needs_draw());
    u.save_state();
    assert!(!u.needs_draw());
    u.r_kun_x += 1;
    assert!(u.needs_draw());
}

#[test]
fn ui_first_frame_only_starts_the_clock() {
    let mut u = UiManager::new();
    u.update(1_000, &readings());
    assert_eq!(u.dt_ms, 10);
    assert_eq!(u.elapsed_ms, 0);
    assert_eq!(u.last_frame_time, Some(1_000));
    assert_eq!(u.frame_count, 1);
    u.update(34_000, &readings());
    assert_eq!(u.dt_ms, 33);
    assert_eq!(u.elapsed_ms, 33);
}

#[test]
fn ui_idle_cycles_faces_and_blinks() {
    let mut u = UiManager::new();
    u.update(0, &readings());
    assert!(u.is_blinking);
    u.update(3_000_000, &readings());
    assert_eq!(u.elapsed_ms, 3_000);
    assert_eq!(u.expression, Face::Thinking);
    assert!(!u.is_blinking);
    u.update(9_000_000, &readings());
    assert_eq!(u.expression, Face::Happy);
    u.update(15_000_000, &readings());
    assert_eq!(u.expression, Face::Angry);
    u.update(24_000_000, &readings());
    assert_eq!(u.expression, Face::Neutral);
}

#[test]
fn ui_frame_rate_over_ten_frames() {
    let mut u = UiManager::new();
    let mut t = 0u64;
    u.update(t, &readings());
    for _ in 0..10 {
        t += 20_000;
        u.update(t, &readings());
    }
    assert_eq!(u.fps, 50);
    assert_eq!(u.fps_frame_count, 0);
    assert_eq!(u.fps_accum, 0);
}

#[test]
fn ui_menu_slides_in_and_times_out() {
    let mut u = UiManager::new();
    u.update(0, &readings());
    u.update(33_000, &readings());
    assert!(u.handle_touch_action(TouchAction::SwipeRight, 35_000, &readings()));
    assert_eq!(u.state, UiState::Menu);
    u.update(67_000, &readings());
    assert_eq!(u.r_kun_x, RKUN_MENU_X);
    assert_eq!(u.menu_offset, MENU_SHOW_OFFSET);
    u.update(10_034_000, &readings());
    assert_eq!(u.state, UiState::Menu);
    u.update(10_035_000, &readings());
    assert_eq!(u.state, UiState::Idle);
}

#[test]
fn ui_taps_walk_into_metrics_and_swipes_walk_back() {
    let mut u = UiManager::new();
    u.update(0, &readings());
    u.update(33_000, &readings());
    u.handle_touch_action(TouchAction::SwipeRight, 34_000, &readings());
    u.update(100_000, &readings());
    let x = u.menu_offset + 10;
    // A tap between buttons presses nothing but still ripples.
    assert!(!u.handle_touch_action(TouchAction::Tap(x, 59), 101_000, &readings()));
    assert!(u.ripple_active);
    assert_eq!((u.ripple_x, u.ripple_y, u.ripple_radius), (x, 59, 0));
    // The second button.
    assert!(u.handle_touch_action(TouchAction::Tap(x, 70), 102_000, &readings()));
    assert_eq!(u.selected_menu_item, 1);
    assert_eq!(u.button_pop, [0, 5, 0, 0]);
    assert_eq!(u.state, UiState::Menu);
    // "Settings".
    assert!(u.handle_touch_action(TouchAction::Tap(x, 150), 103_000, &readings()));
    assert_eq!(u.state, UiState::SettingsMenu);
    assert_eq!(u.selected_menu_item, 3);
    assert!(u.force_redraw);
    // "Metrics".
    assert!(u.handle_touch_action(TouchAction::Tap(x, 30), 104_000, &readings()));
    assert_eq!(u.state, UiState::Metrics);
    assert_eq!(u.settings_button_pop, [5]);
    assert_eq!(u.metrics.sram_total, SRAM_TOTAL);
    assert_eq!(u.metrics.cpu0_pct, 40);
    // Scrolling.
    assert!(!u.handle_touch_action(TouchAction::SwipeUp, 105_000, &readings()));
    assert_eq!(u.metrics_scroll_y, -40);
    for _ in 0..5 {
        u.handle_touch_action(TouchAction::SwipeUp, 105_000, &readings());
    }
    assert_eq!(u.metrics_scroll_y, -160);
    u.handle_touch_action(TouchAction::SwipeDown, 105_000, &readings());
    assert_eq!(u.metrics_scroll_y, -120);
    // Back out, one screen per swipe.
    assert!(u.handle_touch_action(TouchAction::SwipeLeft, 106_000, &readings()));
    assert_eq!(u.state, UiState::SettingsMenu);
    assert!(u.handle_touch_action(TouchAction::SwipeLeft, 106_000, &readings()));
    assert_eq!(u.state, UiState::Menu);
    assert!(u.handle_touch_action(TouchAction::SwipeLeft, 106_000, &readings()));
    assert_eq!(u.state, UiState::Idle);
    assert!(!u.handle_touch_action(TouchAction::SwipeLeft, 106_000, &readings()));
    assert_eq!(u.state, UiState::Idle);
    assert_eq!(u.last_interaction_time, Some(106_000));
}

#[test]
fn ui_button_pops_decay_in_menu() {
    let mut u = UiManager::new();
    u.update(0, &readings());
    u.handle_touch_action(TouchAction::SwipeRight, 0, &readings());
    u.update(100_000, &readings());
    let x = u.menu_offset + 1;
    u.handle_touch_action(TouchAction::Tap(x, 20), 100_000, &readings());
    assert_eq!(u.button_pop[0], 5);
    u.update(120_000, &readings());
    assert_eq!(u.button_pop[0], 3);
    u.update(200_000, &readings());
    assert_eq!(u.button_pop[0], 0);
}

#[test]
fn ui_ripple_grows_then_ends() {
    let mut u = UiManager::new();
    u.update(0, &readings());
    u.handle_touch_action(TouchAction::Tap(100, 100), 0, &readings());
    u.update(100_000, &readings());
    assert_eq!(u.ripple_radius, 30);
    assert!(u.ripple_active);
    u.update(200_000, &readings());
    assert_eq!(u.ripple_radius, 60);
    assert!(!u.ripple_active);
}

#[test]
fn ui_boot_button_opens_menu_then_cycles_selection() {
    let mut u = UiManager::new();
    u.on_short_press();
    assert_eq!(u.state, UiState::Menu);
    assert_eq!(u.selected_menu_item, 0);
    for expected in [1usize, 2, 3, 0] {
        u.on_short_press();
        assert_eq!(u.selected_menu_item, expected);
    }
}

#[test]
fn ui_landscape_mapping() {
    assert_eq!(landscape_point(10, 20), (20, 230));
    assert_eq!(landscape_point(240, 0), (0, 0));
}

#[test]
fn ui_metrics_split_heap() {
    let mut m = MetricsData::new();
    m.refresh(&readings(), 30);
    assert_eq!(m.uptime_secs, 12);
    assert_eq!(m.sram_total, 73_728);
    assert_eq!(m.sram_free, 73_728);
    assert_eq!(m.psram_total, 150_000 - 73_728);
    assert_eq!(m.psram_free, 100_000 - 73_728);
    assert_eq!(m.wifi_ip, Some([192, 168, 1, 20]));
    assert_eq!(m.fps, 30);
    let small = SystemReadings { heap_free: 1_000, heap_used: 2_000, ..readings() };
    m.refresh(&small, 0);
    assert_eq!(m.psram_total, 0);
    assert_eq!(m.sram_free, 1_000);
    assert_eq!(m.psram_free, 0);
}

// ── Display driver ──────────────────────────────────────────────────────────

fn next_text(d: &mut DisplayDriver) -> Option<String> {
    match d.next_command() {
        Some(DisplayCommand::SetText(t)) => Some(t.as_str().to_string()),
        _ => None,
    }
}

#[test]
fn driver_queues_text() {
    let mut d = DisplayDriver::new();
    assert_eq!(d.write_text(b"hello"), status::OK);
    assert_eq!(next_text(&mut d), Some("hello".to_string()));
    assert!(d.next_command().is_none());
}

#[test]
fn driver_refuses_non_utf8() {
    let mut d = DisplayDriver::new();
    assert_eq!(d.write_text(&[0x66, 0xFF]), status::ERR_INVALID_ARG);
    assert!(d.next_command().is_none());
}

#[test]
fn driver_keeps_what_fits() {
    let mut d = DisplayDriver::new();
    d.write_text(&[b'a'; 100]);
    assert_eq!(next_text(&mut d), Some("a".repeat(64)));
    // A two-byte character that no longer fits is skipped; a later
    // one-byte character still goes in.
    let mut text = "€".repeat(21);
    text.push('é');
    text.push('b');
    d.write_text(text.as_bytes());
    let mut expected = "€".repeat(21);
    expected.push('b');
    assert_eq!(next_text(&mut d), Some(expected));
    // Only the first 64 characters are considered.
    let mut long = "a".repeat(63);
    long.push('é');
    long.push('b');
    d.write_text(long.as_bytes());
    assert_eq!(next_text(&mut d), Some("a".repeat(63)));
}

#[test]
fn driver_drops_commands_when_queue_full() {
    let mut d = DisplayDriver::default();
    for _ in 0..9 {
        assert_eq!(d.draw_eye(EyeExpression::Happy), status::OK);
    }
    assert_eq!(d.set_brightness(10), status::OK);
    let mut n = 0;
    while let Some(c) = d.next_command() {
        assert!(matches!(c, DisplayCommand::SetExpression(EyeExpression::Happy)));
        n += 1;
    }
    assert_eq!(n, 8);
}

#[test]
fn driver_commands_reach_the_ui() {
    let mut d = DisplayDriver::new();
    let mut u = UiManager::new();
    d.draw_eye(EyeExpression::Sad);
    d.write_text(b"ready");
    d.set_brightness(3);
    while let Some(c) = d.next_command() {
        apply_command(&mut u, c);
    }
    assert_eq!(u.expression, Face::Sad);
    assert_eq!(u.text.as_str(), "ready");
    assert_eq!(Face::from_expression(EyeExpression::Blink), Face::Blink);
}

#[test]
fn metrics_lines_render_every_figure() {
    let mut m = sandos::firmware::ui::MetricsData::new();
    m.uptime_secs = 90_061;
    m.cpu0_pct = 12;
    m.cpu1_pct = 7;
    m.fps = 30;
    m.sram_total = 320 * 1024;
    m.sram_free = 100 * 1024 + 512;
    m.psram_total = 1024 * 1024;
    m.psram_free = 2048 * 1024;
    m.battery_mv = 3_650;
    m.wifi_status = 2;
    m.wifi_ip = Some([192, 168, 1, 20]);
    m.temp_tenths = 423;
    let lines = sandos::firmware::metrics::metrics_lines(&m);
    let text: Vec<String> = lines.iter().map(|l| String::from_utf8(l.clone()).unwrap()).collect();
    assert_eq!(
        text,
        vec![
            "1d 1h 1m 1s",
            "Core0: 12%  Core1: 7%  30fps",
            "SRAM: 220KB/320KB (100KB free)",
            "PSRAM: 0KB/1024KB (2048KB free)",
            "3.6V  ~54%",
            "192.168.1.20",
            "42.3C",
        ]
    );
}

#[test]
fn metrics_lines_without_readings() {
    let m = sandos::firmware::ui::MetricsData::new();
    let lines = sandos::firmware::metrics::metrics_lines(&m);
    let text: Vec<String> = lines.iter().map(|l| String::from_utf8(l.clone()).unwrap()).collect();
    assert_eq!(
        text,
        vec![
            "0h 0m 0s",
            "Core0: 0%  Core1: 0%  0fps",
            "SRAM: 0KB/0KB (0KB free)",
            "PSRAM: 0KB/0KB (0KB free)",
            "No reading",
            "Disconnected",
            "ULP not active",
        ]
    );
    let mut n = sandos::firmware::ui::MetricsData::new();
    n.wifi_status = 2;
    n.battery_mv = 4_300;
    assert_eq!(sandos::firmware::metrics::metrics_lines(&n)[5], b"Connected".to_vec());
    assert_eq!(sandos::firmware::metrics::metrics_lines(&n)[4], b"4.3V  ~100%".to_vec());
    n.wifi_status = 9;
    assert_eq!(sandos::firmware::metrics::metrics_lines(&n)[5], b"Error".to_vec());
}
