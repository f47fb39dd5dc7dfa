//! Tests of the tasks' decisions: the boot status line, the WiFi link
//! steps, hot-swap settling and the departure-board fetch.
use sandos::abi::EyeExpression;
use sandos::firmware::departures::{fetch_request, HOST_HEADER};
use sandos::firmware::display::{DisplayCommand, DisplayDriver};
use sandos::firmware::espnow::on_pc_frame;
use sandos::firmware::links::RadioLink;
use sandos::firmware::lines::FetchedLines;
use sandos::firmware::links::{
    settle_hot_swap, wifi_step, SwapCounter, SwapOutcome, WebServerSwitch, WifiEvent, WifiState,
    WIFI_DHCP_POLL_MS, WIFI_MONITOR_MS, WIFI_RETRY_MS, WIFI_STATUS_CONNECTED,
    WIFI_STATUS_CONNECTING, WIFI_STATUS_DISCONNECTED, WIFI_STATUS_ERROR,
};
use sandos::firmware::profile::{
    boot_status_line, probes_pending, wifi_label, ModuleHealth, ModuleState,
};

#[test]
fn boot_status_line_lists_every_module() {
    let mut h = ModuleHealth::new();
    h.set_display_state(ModuleState::Online);
    h.set_touch_state(ModuleState::Fault);
    h.set_rgb_state(ModuleState::Configured);
    let snap = h.snapshot();
    let line = boot_status_line(&snap);
    assert_eq!(
        String::from_utf8(line).unwrap(),
        "D:OK T:ERR A:UNK SD:UNK B:UNK R:CFG U:UNK"
    );
    assert!(probes_pending(&snap));
    h.set_audio_state(ModuleState::Online);
    h.set_sd_state(ModuleState::Online);
    h.set_battery_state(ModuleState::Fault);
    assert!(!probes_pending(&h.snapshot()));
}

#[test]
fn wifi_labels() {
    assert_eq!(wifi_label(WIFI_STATUS_CONNECTED), "OK");
    assert_eq!(wifi_label(WIFI_STATUS_CONNECTING), "CONN");
    assert_eq!(wifi_label(WIFI_STATUS_ERROR), "ERR");
    assert_eq!(wifi_label(WIFI_STATUS_DISCONNECTED), "OFF");
    assert_eq!(wifi_label(9), "OFF");
}

#[test]
fn wifi_link_cycle() {
    let mut wifi = WifiState::new();
    let mut web = WebServerSwitch::new();
    assert_eq!(wifi_step(&mut wifi, &mut web, WifiEvent::Attempt), 0);
    assert_eq!(wifi.wifi_status(), WIFI_STATUS_CONNECTING);
    assert_eq!(wifi_step(&mut wifi, &mut web, WifiEvent::ConnectFailed), WIFI_RETRY_MS);
    assert_eq!(wifi.wifi_status(), WIFI_STATUS_ERROR);
    assert!(!web.is_web_server_enabled());
    wifi_step(&mut wifi, &mut web, WifiEvent::Attempt);
    assert_eq!(wifi_step(&mut wifi, &mut web, WifiEvent::AwaitingLease), WIFI_DHCP_POLL_MS);
    assert_eq!(wifi.wifi_ipv4(), None);
    assert_eq!(wifi_step(&mut wifi, &mut web, WifiEvent::Leased([10, 0, 0, 7])), 0);
    assert_eq!(wifi.wifi_status(), WIFI_STATUS_CONNECTED);
    assert_eq!(wifi.wifi_ipv4(), Some([10, 0, 0, 7]));
    assert!(web.is_web_server_enabled());
    assert_eq!(wifi_step(&mut wifi, &mut web, WifiEvent::LinkUp), WIFI_MONITOR_MS);
    assert_eq!(wifi.wifi_ipv4(), Some([10, 0, 0, 7]));
    assert_eq!(wifi_step(&mut wifi, &mut web, WifiEvent::LinkDown), WIFI_MONITOR_MS);
    assert_eq!(wifi.wifi_status(), WIFI_STATUS_DISCONNECTED);
    assert_eq!(wifi.wifi_ipv4(), None);
    // The dashboard stays on; only the user or the stop endpoint turns it off.
    assert!(web.is_web_server_enabled());
}

#[test]
fn hot_swaps_are_counted_only_when_completed() {
    let mut c = SwapCounter::new();
    assert_eq!(settle_hot_swap(&mut c, true, true), SwapOutcome::Swapped);
    assert_eq!(c.count, 1);
    assert_eq!(settle_hot_swap(&mut c, false, true), SwapOutcome::RestoredFallback);
    assert_eq!(c.count, 1);
    assert_eq!(settle_hot_swap(&mut c, false, false), SwapOutcome::Halted);
    assert_eq!(c.count, 1);
    c.count = u32::MAX;
    settle_hot_swap(&mut c, true, false);
    assert_eq!(c.count, 0);
}

#[test]
fn departure_board_request() {
    let req = String::from_utf8(fetch_request()).unwrap();
    assert_eq!(
        req,
        format!(
            "GET / HTTP/1.1\r\nHost: {}\r\nConnection: close\r\nAccept: application/json\r\n\r\n",
            HOST_HEADER
        )
    );
    assert_eq!(HOST_HEADER, "192.168.0.164:3000");
}

#[test]
fn departure_board_fetch_states() {
    let mut board = FetchedLines::new();
    board.last_update_ms = 77;
    board.begin_fetch();
    assert!(board.loading);
    assert_eq!(board.last_update_ms, 77);
    let failed = FetchedLines::failed();
    assert!(failed.error);
    assert!(!failed.loading);
    assert_eq!(failed.stops.len(), 0);
    assert_eq!(failed.last_update_ms, 0);
}

#[test]
fn pc_frames_mark_the_link_and_set_the_mood() {
    let mut link = RadioLink::new();
    let mut display = DisplayDriver::new();
    on_pc_frame(&mut link, &mut display, br#"{"emotion":"sad"}"#, 1_234);
    assert!(link.is_radio_link_alive(2_000));
    assert!(matches!(display.next_command(), Some(DisplayCommand::SetExpression(EyeExpression::Sad))));
    on_pc_frame(&mut link, &mut display, b"hello", 5_000);
    assert!(display.next_command().is_none());
    assert!(!link.is_radio_link_alive(7_000));
    assert!(link.is_radio_link_alive(6_999));
    on_pc_frame(&mut link, &mut display, &[0xff, 0xfe, 0x5a], 6_000);
    assert_eq!(link.last_rx_ms, 5_000);
    assert!(display.next_command().is_none());
}
