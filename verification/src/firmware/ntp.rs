//! The SNTP exchange's arithmetic and the wall clock it sets.  The UDP
//! send and receive, and the clock readings around them, are the caller's.
use vstd::prelude::*;

verus! {

/// Seconds between 1900-01-01 (the NTP epoch) and 1970-01-01.
pub const NTP_TO_UNIX_OFFSET: u64 = 2_208_988_800;

/// Length of an SNTP packet.
pub const SNTP_PACKET_LEN: usize = 48;

/// The error for a reply shorter than an SNTP packet.
pub const ERR_RESPONSE_TOO_SHORT: &'static str = "response too short";

/// The error for a reply whose transmit timestamp is zero.
pub const ERR_ZERO_TIMESTAMP: &'static str = "zero timestamp";

/// A client request: version 4, mode 3 (first byte `0x23`), all else zero.
pub fn sntp_request() -> (req: [u8; 48])
    ensures
        req@[0] == 0x23,
        forall|i: int| 1 <= i < 48 ==> req@[i] == 0,
{
    let mut request = [0u8; 48];
    request[0] = 0x23;
    request
}

/// The big-endian `u32` at `b[i..i + 4]`.
pub open spec fn be_u32_at(b: Seq<u8>, i: int) -> u32 {
    (b[i] * 0x100_0000 + b[i + 1] * 0x1_0000 + b[i + 2] * 0x100 + b[i + 3]) as u32
}

/// `a / 2` rounded toward zero, for a non-negative `a`.
pub open spec fn half(a: int) -> int {
    a / 2
}

/// The clock offset an SNTP reply gives: the transmit timestamp (seconds
/// since 1900 at bytes 40..44, converted to Unix milliseconds, saturating at
/// the Unix epoch) minus the midpoint of the local send and receive times.
pub open spec fn sntp_offset(response: Seq<u8>, len: int, send_ms: int, recv_ms: int) -> Result<int, &'static str> {
    if len < 48 {
        Err(ERR_RESPONSE_TOO_SHORT)
    } else if be_u32_at(response, 40) == 0 {
        Err(ERR_ZERO_TIMESTAMP)
    } else {
        let secs = be_u32_at(response, 40) as int;
        let unix_secs = if secs >= NTP_TO_UNIX_OFFSET { secs - NTP_TO_UNIX_OFFSET } else { 0 };
        Ok(unix_secs * 1000 - half(send_ms + recv_ms))
    }
}

/// Interpret an SNTP reply of `len` received bytes (`response` holds at
/// least 48) sent at `send_ms` and received at `recv_ms` (local uptime).
pub fn sntp_offset_ms(response: &[u8; 48], len: usize, send_ms: i64, recv_ms: i64) -> (r: Result<i64, &'static str>)
    requires
        0 <= send_ms,
        0 <= recv_ms,
        send_ms + recv_ms <= i64::MAX,
    ensures
        match r {
            Ok(o) => sntp_offset(response@, len as int, send_ms as int, recv_ms as int) == Ok::<int, &'static str>(o as int),
            Err(e) => sntp_offset(response@, len as int, send_ms as int, recv_ms as int) == Err::<int, &'static str>(e),
        },
{
    if len < SNTP_PACKET_LEN {
        return Err(ERR_RESPONSE_TOO_SHORT);
    }
    let ntp_secs: u32 = response[40] as u32 * 0x100_0000 + response[41] as u32 * 0x1_0000 + response[42] as u32
        * 0x100 + response[43] as u32;
    if ntp_secs == 0 {
        return Err(ERR_ZERO_TIMESTAMP);
    }
    let unix_secs: u64 = if ntp_secs as u64 >= NTP_TO_UNIX_OFFSET {
        ntp_secs as u64 - NTP_TO_UNIX_OFFSET
    } else {
        0
    };
    let ntp_ms: i64 = (unix_secs * 1000) as i64;
    let local_ref_ms: i64 = (send_ms + recv_ms) / 2;
    Ok(ntp_ms - local_ref_ms)
}

/// The wall clock: the offset from local uptime to Unix time, once synced.
pub struct NtpClock {
    /// Unix milliseconds minus local uptime milliseconds.
    pub offset_ms: i64,
    /// Whether a sync has succeeded.
    pub synced: bool,
}

impl NtpClock {
    /// Not synced.
    pub fn new() -> (c: Self)
        ensures
            c.offset_ms == 0,
            !c.synced,
    {
        NtpClock { offset_ms: 0, synced: false }
    }

    /// Record a successful sync.
    pub fn record_sync(&mut self, offset_ms: i64)
        ensures
            final(self).offset_ms == offset_ms,
            final(self).synced,
    {
        self.offset_ms = offset_ms;
        self.synced = true;
    }

    /// The Unix time in seconds at local uptime `now_ms`; `None` before the
    /// first sync.  A time before the Unix epoch wraps as Rust's `as u64`
    /// does.
    pub fn wall_clock_secs(&self, now_ms: u64) -> (r: Option<u64>)
        requires
            self.synced ==> now_ms <= i64::MAX && i64::MIN <= now_ms + self.offset_ms <= i64::MAX,
        ensures
            !self.synced ==> r is None,
            self.synced ==> r == Some(
                (if now_ms + self.offset_ms >= 0 { (now_ms + self.offset_ms) / 1000 } else { -((-(now_ms + self.offset_ms)) / 1000) }) as u64,
            ),
    {
        if !self.synced {
            return None;
        }
        let t: i64 = now_ms as i64 + self.offset_ms;
        let q: i64 = if t >= 0 {
            t / 1000
        } else {
            -((-(t as i128)) / 1000) as i64
        };
        Some(q as u64)
    }
}

} // verus!
