//! The text of the system-metrics screen: one line per figure, under the
//! labels UPTIME, CPU, MEMORY (SRAM and PSRAM), BATTERY, NETWORK and
//! TEMPERATURE.
use vstd::prelude::*;

use vstd::string::StringSliceAdditionalSpecFns;

use crate::firmware::json::{dec, lemma_dec_digits, push_dec, push_text};
use crate::firmware::ui::MetricsData;

verus! {

/// The uptime as `"{d}d {h}h {m}m {s}s"`, without the days while there is
/// less than one.
pub open spec fn uptime_text(secs: nat) -> Seq<u8> {
    let d = secs / 86400;
    let h = (secs % 86400) / 3600;
    let mi = (secs % 3600) / 60;
    let s = secs % 60;
    let hms = dec(h) + "h ".spec_bytes() + dec(mi) + "m ".spec_bytes() + dec(s) + "s".spec_bytes();
    if d > 0 {
        dec(d) + "d ".spec_bytes() + hms
    } else {
        hms
    }
}

/// Both cores' load and the frame rate.
pub open spec fn cpu_text(cpu0: nat, cpu1: nat, fps: nat) -> Seq<u8> {
    "Core0: ".spec_bytes() + dec(cpu0) + "%  Core1: ".spec_bytes() + dec(cpu1) + "%  ".spec_bytes()
        + dec(fps) + "fps".spec_bytes()
}

/// A memory line: `"{name}: {used}KB/{total}KB ({free}KB free)"`.
pub open spec fn memory_text(name: Seq<u8>, used_kb: nat, total_kb: nat, free_kb: nat) -> Seq<u8> {
    name + ": ".spec_bytes() + dec(used_kb) + "KB/".spec_bytes() + dec(total_kb) + "KB (".spec_bytes()
        + dec(free_kb) + "KB free)".spec_bytes()
}

/// The charge in percent for a cell at `mv` millivolts: 0 at 3.0 V or
/// less, 100 at 4.2 V or more, linear (rounded down) in between.
pub open spec fn battery_pct(mv: nat) -> nat {
    if mv >= 4200 {
        100
    } else if mv <= 3000 {
        0
    } else {
        ((mv - 3000) * 100 / 1200) as nat
    }
}

/// The charge never exceeds 100%, is empty at 3.0 V and below, full at
/// 4.2 V and above, and never falls as the voltage rises.
pub proof fn lemma_battery_pct_monotone(mv1: nat, mv2: nat)
    ensures
        battery_pct(mv1) <= 100,
        mv1 <= 3000 ==> battery_pct(mv1) == 0,
        mv1 >= 4200 ==> battery_pct(mv1) == 100,
        mv1 <= mv2 ==> battery_pct(mv1) <= battery_pct(mv2),
{
    if 3000 < mv1 < 4200 {
        assert((mv1 - 3000) * 100 <= 1200 * 100) by (nonlinear_arith)
            requires
                mv1 - 3000 <= 1200,
                mv1 >= 3000;
        vstd::arithmetic::div_mod::lemma_div_is_ordered((mv1 - 3000) * 100, 120000int, 1200int);
    }
    if mv1 <= mv2 && 3000 < mv1 && mv2 < 4200 {
        assert((mv1 - 3000) * 100 <= (mv2 - 3000) * 100) by (nonlinear_arith)
            requires
                mv1 <= mv2,
                mv1 >= 3000;
        vstd::arithmetic::div_mod::lemma_div_is_ordered((mv1 - 3000) * 100, (mv2 - 3000) * 100, 1200int);
    }
}

/// The battery voltage to a tenth of a volt and the charge, or
/// `"No reading"` at 0 mV.
pub open spec fn battery_text(mv: nat) -> Seq<u8> {
    if mv > 0 {
        dec(mv / 1000) + ".".spec_bytes() + dec((mv % 1000) / 100) + "V  ~".spec_bytes() + dec(
            battery_pct(mv),
        ) + "%".spec_bytes()
    } else {
        "No reading".spec_bytes()
    }
}

/// The WiFi state: the address once connected.
pub open spec fn network_text(status: u8, ip: Option<[u8; 4]>) -> Seq<u8> {
    if status == 0 {
        "Disconnected".spec_bytes()
    } else if status == 1 {
        "Connecting...".spec_bytes()
    } else if status == 2 {
        match ip {
            Some(a) => dec(a@[0] as nat) + ".".spec_bytes() + dec(a@[1] as nat) + ".".spec_bytes() + dec(
                a@[2] as nat,
            ) + ".".spec_bytes() + dec(a@[3] as nat),
            None => "Connected".spec_bytes(),
        }
    } else {
        "Error".spec_bytes()
    }
}

/// An address line starts with a digit: it cannot be taken for one of the
/// worded states.
proof fn lemma_address_starts_with_digit(a: [u8; 4])
    ensures
        ({
            let t = network_text(2, Some(a));
            t.len() > 0 && 48 <= t[0] <= 57
        }),
{
    lemma_dec_digits(a@[0] as nat);
    let d = dec(a@[0] as nat);
    assert(crate::firmware::http::is_digit(d[0]));
    let t = network_text(2, Some(a));
    assert(t[0] == d[0]);
}

/// The network line names each WiFi state by itself: while connecting
/// (status 1) it reads `"Connecting..."`, whatever the address, and two
/// lines are the same only for the same status (any status from 3 up is an
/// error), and, once connected, only when both or neither have an address.
pub proof fn lemma_network_text_names_states(s1: u8, ip1: Option<[u8; 4]>, s2: u8, ip2: Option<[u8; 4]>)
    ensures
        network_text(1, ip1) == "Connecting...".spec_bytes(),
        network_text(s1, ip1) == network_text(s2, ip2) ==> (s1 == s2 || (s1 >= 3 && s2 >= 3)),
        network_text(s1, ip1) == network_text(s2, ip2) && s1 == 2 ==> (ip1 is Some <==> ip2 is Some),
{
    reveal_strlit("Disconnected");
    reveal_strlit("Connecting...");
    reveal_strlit("Connected");
    reveal_strlit("Error");
    match ip1 {
        Some(a) => lemma_address_starts_with_digit(a),
        None => {},
    }
    match ip2 {
        Some(a) => lemma_address_starts_with_digit(a),
        None => {},
    }
    vstd::utf8::is_ascii_chars_encode_utf8("Disconnected"@);
    vstd::utf8::is_ascii_chars_encode_utf8("Connecting..."@);
    vstd::utf8::is_ascii_chars_encode_utf8("Connected"@);
    vstd::utf8::is_ascii_chars_encode_utf8("Error"@);
    assert("Disconnected".spec_bytes().len() == 12 && "Disconnected".spec_bytes()[0] == 68);
    assert("Connecting...".spec_bytes().len() == 13 && "Connecting...".spec_bytes()[0] == 67);
    assert("Connected".spec_bytes().len() == 9 && "Connected".spec_bytes()[0] == 67);
    assert("Error".spec_bytes().len() == 5 && "Error".spec_bytes()[0] == 69);
    let t1 = network_text(s1, ip1);
    let t2 = network_text(s2, ip2);
    if t1 == t2 {
        assert(t1.len() == t2.len());
        if t1.len() > 0 {
            assert(t1[0] == t2[0]);
        }
    }
}

/// The chip temperature to a tenth of a degree, or `"ULP not active"`
/// while there is no reading.
pub open spec fn temperature_text(tenths: nat) -> Seq<u8> {
    if tenths > 0 {
        dec(tenths / 10) + ".".spec_bytes() + dec(tenths % 10) + "C".spec_bytes()
    } else {
        "ULP not active".spec_bytes()
    }
}

fn uptime_line(secs: u64) -> (v: Vec<u8>)
    ensures
        v@ == uptime_text(secs as nat),
{
    let d = secs / 86400;
    let mut v: Vec<u8> = Vec::new();
    if d > 0 {
        push_dec(&mut v, d);
        push_text(&mut v, "d ");
    }
    push_dec(&mut v, (secs % 86400) / 3600);
    push_text(&mut v, "h ");
    push_dec(&mut v, (secs % 3600) / 60);
    push_text(&mut v, "m ");
    push_dec(&mut v, secs % 60);
    push_text(&mut v, "s");
    v
}

fn cpu_line(cpu0: u32, cpu1: u32, fps: u16) -> (v: Vec<u8>)
    ensures
        v@ == cpu_text(cpu0 as nat, cpu1 as nat, fps as nat),
{
    let mut v: Vec<u8> = Vec::new();
    push_text(&mut v, "Core0: ");
    push_dec(&mut v, cpu0 as u64);
    push_text(&mut v, "%  Core1: ");
    push_dec(&mut v, cpu1 as u64);
    push_text(&mut v, "%  ");
    push_dec(&mut v, fps as u64);
    push_text(&mut v, "fps");
    v
}

fn memory_line(name: &str, used_kb: u64, total_kb: u64, free_kb: u64) -> (v: Vec<u8>)
    ensures
        v@ == memory_text(name.spec_bytes(), used_kb as nat, total_kb as nat, free_kb as nat),
{
    let mut v: Vec<u8> = Vec::new();
    push_text(&mut v, name);
    push_text(&mut v, ": ");
    push_dec(&mut v, used_kb);
    push_text(&mut v, "KB/");
    push_dec(&mut v, total_kb);
    push_text(&mut v, "KB (");
    push_dec(&mut v, free_kb);
    push_text(&mut v, "KB free)");
    v
}

fn battery_line(mv: u32) -> (v: Vec<u8>)
    ensures
        v@ == battery_text(mv as nat),
{
    let mut v: Vec<u8> = Vec::new();
    if mv > 0 {
        let pct: u32 = if mv >= 4200 {
            100
        } else if mv <= 3000 {
            0
        } else {
            ((mv - 3000) * 100) / 1200
        };
        push_dec(&mut v, (mv / 1000) as u64);
        push_text(&mut v, ".");
        push_dec(&mut v, ((mv % 1000) / 100) as u64);
        push_text(&mut v, "V  ~");
        push_dec(&mut v, pct as u64);
        push_text(&mut v, "%");
    } else {
        push_text(&mut v, "No reading");
    }
    v
}

fn network_line(status: u8, ip: Option<[u8; 4]>) -> (v: Vec<u8>)
    ensures
        v@ == network_text(status, ip),
{
    let mut v: Vec<u8> = Vec::new();
    if status == 0 {
        push_text(&mut v, "Disconnected");
    } else if status == 1 {
        push_text(&mut v, "Connecting...");
    } else if status == 2 {
        match ip {
            Some(a) => {
                push_dec(&mut v, a[0] as u64);
                push_text(&mut v, ".");
                push_dec(&mut v, a[1] as u64);
                push_text(&mut v, ".");
                push_dec(&mut v, a[2] as u64);
                push_text(&mut v, ".");
                push_dec(&mut v, a[3] as u64);
            },
            None => push_text(&mut v, "Connected"),
        }
    } else {
        push_text(&mut v, "Error");
    }
    v
}

fn temperature_line(tenths: u32) -> (v: Vec<u8>)
    ensures
        v@ == temperature_text(tenths as nat),
{
    let mut v: Vec<u8> = Vec::new();
    if tenths > 0 {
        push_dec(&mut v, (tenths / 10) as u64);
        push_text(&mut v, ".");
        push_dec(&mut v, (tenths % 10) as u64);
        push_text(&mut v, "C");
    } else {
        push_text(&mut v, "ULP not active");
    }
    v
}

/// The value lines of the metrics screen, top to bottom: uptime, CPU,
/// SRAM, PSRAM, battery, network and temperature. Memory is shown in KB
/// (rounded down); used PSRAM is 0 when the free figure exceeds the total.
pub fn metrics_lines(m: &MetricsData) -> (lines: Vec<Vec<u8>>)
    requires
        m.sram_free / 1024 <= m.sram_total / 1024,
    ensures
        lines@.len() == 7,
        lines@[0]@ == uptime_text(m.uptime_secs as nat),
        lines@[1]@ == cpu_text(m.cpu0_pct as nat, m.cpu1_pct as nat, m.fps as nat),
        lines@[2]@ == memory_text(
            "SRAM".spec_bytes(),
            (m.sram_total / 1024 - m.sram_free / 1024) as nat,
            (m.sram_total / 1024) as nat,
            (m.sram_free / 1024) as nat,
        ),
        lines@[3]@ == memory_text(
            "PSRAM".spec_bytes(),
            if m.psram_free / 1024 <= m.psram_total / 1024 {
                (m.psram_total / 1024 - m.psram_free / 1024) as nat
            } else {
                0
            },
            (m.psram_total / 1024) as nat,
            (m.psram_free / 1024) as nat,
        ),
        lines@[4]@ == battery_text(m.battery_mv as nat),
        lines@[5]@ == network_text(m.wifi_status, m.wifi_ip),
        lines@[6]@ == temperature_text(m.temp_tenths as nat),
{
    let s_total_kb = m.sram_total / 1024;
    let s_free_kb = m.sram_free / 1024;
    let p_total_kb = m.psram_total / 1024;
    let p_free_kb = m.psram_free / 1024;
    let p_used_kb = if p_free_kb <= p_total_kb {
        p_total_kb - p_free_kb
    } else {
        0
    };
    let mut lines: Vec<Vec<u8>> = Vec::new();
    lines.push(uptime_line(m.uptime_secs));
    lines.push(cpu_line(m.cpu0_pct, m.cpu1_pct, m.fps));
    lines.push(memory_line("SRAM", (s_total_kb - s_free_kb) as u64, s_total_kb as u64, s_free_kb as u64));
    lines.push(memory_line("PSRAM", p_used_kb as u64, p_total_kb as u64, p_free_kb as u64));
    lines.push(battery_line(m.battery_mv));
    lines.push(network_line(m.wifi_status, m.wifi_ip));
    lines.push(temperature_line(m.temp_tenths));
    lines
}

} // verus!
