//! Link and service state shown on the dashboard: the web-server switch,
//! the WiFi status and address, the radio link and the hot-swap counter.
use vstd::prelude::*;

verus! {

/// WiFi is not associated.
pub const WIFI_STATUS_DISCONNECTED: u8 = 0;
/// WiFi is associating or waiting for DHCP.
pub const WIFI_STATUS_CONNECTING: u8 = 1;
/// WiFi holds an address.
pub const WIFI_STATUS_CONNECTED: u8 = 2;
/// The last association attempt failed.
pub const WIFI_STATUS_ERROR: u8 = 3;

/// The radio link counts as alive while a packet arrived less than this
/// many milliseconds ago.
pub const RADIO_ALIVE_WINDOW_MS: u64 = 2000;

// ── Web server switch ────────────────────────────────────────────────────────

/// Whether the HTTP dashboard serves requests (off at boot).
pub struct WebServerSwitch {
    pub enabled: bool,
}

impl WebServerSwitch {
    /// The boot state: disabled.
    pub fn new() -> (s: Self)
        ensures
            !s.enabled,
    {
        WebServerSwitch { enabled: false }
    }

    /// Turn the server on.
    pub fn enable_web_server(&mut self)
        ensures
            final(self).enabled,
    {
        self.enabled = true;
    }

    /// Turn the server off.
    pub fn disable_web_server(&mut self)
        ensures
            !final(self).enabled,
    {
        self.enabled = false;
    }

    /// Whether the server is on.
    pub fn is_web_server_enabled(&self) -> (b: bool)
        ensures
            b == self.enabled,
    {
        self.enabled
    }
}

// ── WiFi ─────────────────────────────────────────────────────────────────────

/// The big-endian word of four address octets.
pub open spec fn ipv4_word(o: [u8; 4]) -> u32 {
    (o[0] * 0x100_0000 + o[1] * 0x1_0000 + o[2] * 0x100 + o[3]) as u32
}

/// The four octets of a big-endian address word.
pub open spec fn ipv4_octets(w: u32) -> [u8; 4] {
    [(w / 0x100_0000) as u8, ((w / 0x1_0000) % 256) as u8, ((w / 0x100) % 256) as u8, (w % 256) as u8]
}

/// The WiFi status code and the address (big-endian, 0 = none).
pub struct WifiState {
    pub status: u8,
    pub ipv4_be: u32,
}

impl WifiState {
    /// Disconnected, no address.
    pub fn new() -> (s: Self)
        ensures
            s.status == WIFI_STATUS_DISCONNECTED,
            s.ipv4_be == 0,
    {
        WifiState { status: WIFI_STATUS_DISCONNECTED, ipv4_be: 0 }
    }

    /// The status code.
    pub fn wifi_status(&self) -> (s: u8)
        ensures
            s == self.status,
    {
        self.status
    }

    /// The address octets, `None` while the address word is 0.
    pub fn wifi_ipv4(&self) -> (r: Option<[u8; 4]>)
        ensures
            self.ipv4_be == 0 ==> r is None,
            self.ipv4_be != 0 ==> r == Some(ipv4_octets(self.ipv4_be)),
    {
        if self.ipv4_be == 0 {
            None
        } else {
            let w = self.ipv4_be;
            Some([(w / 0x100_0000) as u8, ((w / 0x1_0000) % 256) as u8, ((w / 0x100) % 256) as u8, (w % 256) as u8])
        }
    }

    /// An association attempt starts: connecting, no address.
    pub fn mark_connecting(&mut self)
        ensures
            final(self).status == WIFI_STATUS_CONNECTING,
            final(self).ipv4_be == 0,
    {
        self.status = WIFI_STATUS_CONNECTING;
        self.ipv4_be = 0;
    }

    /// DHCP gave the address `octets`: connected.
    pub fn mark_connected(&mut self, octets: [u8; 4])
        ensures
            final(self).status == WIFI_STATUS_CONNECTED,
            final(self).ipv4_be == ipv4_word(octets),
    {
        self.ipv4_be = octets[0] as u32 * 0x100_0000 + octets[1] as u32 * 0x1_0000 + octets[2] as u32
            * 0x100 + octets[3] as u32;
        self.status = WIFI_STATUS_CONNECTED;
    }

    /// The association attempt failed; the address is left as it was.
    pub fn mark_error(&mut self)
        ensures
            final(self).status == WIFI_STATUS_ERROR,
            final(self).ipv4_be == old(self).ipv4_be,
    {
        self.status = WIFI_STATUS_ERROR;
    }

    /// The link dropped: disconnected, no address.
    pub fn mark_disconnected(&mut self)
        ensures
            final(self).status == WIFI_STATUS_DISCONNECTED,
            final(self).ipv4_be == 0,
    {
        self.status = WIFI_STATUS_DISCONNECTED;
        self.ipv4_be = 0;
    }
}

/// An address stored on connecting is read back unchanged, unless it is
/// 0.0.0.0, which reads as no address.
pub proof fn lemma_ipv4_roundtrip(o: [u8; 4])
    ensures
        ipv4_octets(ipv4_word(o)) == o,
        ipv4_word(o) == 0 <==> (o[0] == 0 && o[1] == 0 && o[2] == 0 && o[3] == 0),
{
    let (a, b, c, d) = (o[0] as int, o[1] as int, o[2] as int, o[3] as int);
    let w = a * 0x100_0000 + b * 0x1_0000 + c * 0x100 + d;
    assert(w / 0x100_0000 == a && (w / 0x1_0000) % 256 == b && (w / 0x100) % 256 == c && w % 256
        == d) by (nonlinear_arith)
        requires
            0 <= a < 256,
            0 <= b < 256,
            0 <= c < 256,
            0 <= d < 256,
            w == a * 0x100_0000 + b * 0x1_0000 + c * 0x100 + d,
    ;
    assert(ipv4_word(o) == w);
    assert(ipv4_octets(ipv4_word(o)) =~= o);
}

// ── Radio link ───────────────────────────────────────────────────────────────

/// When the last ESP-NOW packet arrived.
pub struct RadioLink {
    /// Uptime (ms) of the most recent packet; 0 before any.
    pub last_rx_ms: u64,
}

/// Milliseconds from `since` to `now`, 0 when `now` is earlier.
pub open spec fn ms_since(since: u64, now: u64) -> int {
    if now >= since { now - since } else { 0 }
}

impl RadioLink {
    /// No packet yet.
    pub fn new() -> (r: Self)
        ensures
            r.last_rx_ms == 0,
    {
        RadioLink { last_rx_ms: 0 }
    }

    /// A packet arrived at `now_ms`.
    pub fn record_rx(&mut self, now_ms: u64)
        ensures
            final(self).last_rx_ms == now_ms,
    {
        self.last_rx_ms = now_ms;
    }

    /// Whether a packet arrived less than `RADIO_ALIVE_WINDOW_MS` before
    /// `now_ms` (a clock reading before the last packet counts as no time).
    pub fn is_radio_link_alive(&self, now_ms: u64) -> (b: bool)
        ensures
            b == (ms_since(self.last_rx_ms, now_ms) < RADIO_ALIVE_WINDOW_MS),
    {
        let gap = if now_ms >= self.last_rx_ms {
            now_ms - self.last_rx_ms
        } else {
            0
        };
        gap < RADIO_ALIVE_WINDOW_MS
    }
}

// ── Hot-swap counter ─────────────────────────────────────────────────────────

/// Completed Wasm hot-swaps since boot (wrapping).
pub struct SwapCounter {
    pub count: u32,
}

impl SwapCounter {
    /// No swap yet.
    pub fn new() -> (c: Self)
        ensures
            c.count == 0,
    {
        SwapCounter { count: 0 }
    }

    /// Count one more hot-swap; the counter wraps past `u32::MAX`.
    pub fn increment_hot_swap_count(&mut self)
        ensures
            final(self).count == (old(self).count + 1) % 0x1_0000_0000,
    {
        self.count = self.count.wrapping_add(1);
    }
}

// ── WiFi link supervision ────────────────────────────────────────────────────

/// Wait before retrying a failed association, in milliseconds.
pub const WIFI_RETRY_MS: u32 = 5000;
/// Poll period while waiting for a DHCP lease.
pub const WIFI_DHCP_POLL_MS: u32 = 500;
/// Poll period of the link monitor, and the wait before reconnecting.
pub const WIFI_MONITOR_MS: u32 = 2000;

/// What the WiFi task learned from the radio and the network stack.
#[derive(Clone, Copy, Debug)]
pub enum WifiEvent {
    /// An association attempt is starting.
    Attempt,
    /// The association attempt failed.
    ConnectFailed,
    /// Associated; no DHCP lease yet.
    AwaitingLease,
    /// DHCP leased the address.
    Leased([u8; 4]),
    /// The link is still up.
    LinkUp,
    /// The link dropped.
    LinkDown,
}

/// Update the WiFi state for `ev`; returns how long to wait, in
/// milliseconds, before looking again. A lease also switches the
/// dashboard on.
pub fn wifi_step(wifi: &mut WifiState, web: &mut WebServerSwitch, ev: WifiEvent) -> (wait_ms: u32)
    ensures
        ev == WifiEvent::Attempt ==> final(wifi).status == WIFI_STATUS_CONNECTING && final(wifi).ipv4_be == 0
            && wait_ms == 0,
        ev == WifiEvent::ConnectFailed ==> final(wifi).status == WIFI_STATUS_ERROR && final(wifi).ipv4_be
            == old(wifi).ipv4_be && wait_ms == WIFI_RETRY_MS,
        ev == WifiEvent::AwaitingLease ==> *final(wifi) == *old(wifi) && wait_ms == WIFI_DHCP_POLL_MS,
        ev matches WifiEvent::Leased(o) ==> final(wifi).status == WIFI_STATUS_CONNECTED && final(wifi).ipv4_be
            == ipv4_word(o) && wait_ms == 0,
        ev == WifiEvent::LinkUp ==> *final(wifi) == *old(wifi) && wait_ms == WIFI_MONITOR_MS,
        ev == WifiEvent::LinkDown ==> final(wifi).status == WIFI_STATUS_DISCONNECTED && final(wifi).ipv4_be == 0
            && wait_ms == WIFI_MONITOR_MS,
        ev is Leased ==> final(web).enabled,
        !(ev is Leased) ==> final(web).enabled == old(web).enabled,
{
    match ev {
        WifiEvent::Attempt => {
            wifi.mark_connecting();
            0
        },
        WifiEvent::ConnectFailed => {
            wifi.mark_error();
            WIFI_RETRY_MS
        },
        WifiEvent::AwaitingLease => WIFI_DHCP_POLL_MS,
        WifiEvent::Leased(octets) => {
            wifi.mark_connected(octets);
            web.enable_web_server();
            0
        },
        WifiEvent::LinkUp => WIFI_MONITOR_MS,
        WifiEvent::LinkDown => {
            wifi.mark_disconnected();
            WIFI_MONITOR_MS
        },
    }
}

// ── Hot-swap supervision ─────────────────────────────────────────────────────

/// What the Wasm engine runs after a hot-swap was signalled.
#[derive(Clone, Copy, Debug, PartialEq, Eq, Structural)]
pub enum SwapOutcome {
    /// The new binary was instantiated and runs from now on.
    Swapped,
    /// The new binary was malformed; the built-in guest runs again.
    RestoredFallback,
    /// Neither binary could be instantiated; the engine stops.
    Halted,
}

/// Settle a signalled hot-swap, given whether the new binary and, failing
/// that, the built-in guest could be instantiated. Only a completed swap is
/// counted.
pub fn settle_hot_swap(counter: &mut SwapCounter, new_built: bool, fallback_built: bool) -> (o: SwapOutcome)
    ensures
        new_built ==> o == SwapOutcome::Swapped,
        !new_built && fallback_built ==> o == SwapOutcome::RestoredFallback,
        !new_built && !fallback_built ==> o == SwapOutcome::Halted,
        final(counter).count == if new_built {
            (old(counter).count + 1) % 0x1_0000_0000
        } else {
            old(counter).count as int
        },
{
    if new_built {
        counter.increment_hot_swap_count();
        SwapOutcome::Swapped
    } else if fallback_built {
        SwapOutcome::RestoredFallback
    } else {
        SwapOutcome::Halted
    }
}

} // verus!
