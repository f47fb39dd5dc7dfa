//! Runtime health of the board's modules, for the on-device monitor.
use vstd::prelude::*;

use vstd::string::StringSliceAdditionalSpecFns;

use crate::firmware::json::push_text;
use crate::firmware::links::{WIFI_STATUS_CONNECTED, WIFI_STATUS_CONNECTING, WIFI_STATUS_ERROR};

verus! {

/// The health of one hardware module.
#[derive(Clone, Copy, Debug, Eq, PartialEq, Structural)]
pub enum ModuleState {
    /// Not probed yet (code 0).
    Unknown,
    /// Configured but not confirmed (code 1).
    Configured,
    /// Working (code 2).
    Online,
    /// Probe failed (code 3).
    Fault,
}

/// The storage code of a state.
pub open spec fn module_code(s: ModuleState) -> u8 {
    match s {
        ModuleState::Unknown => 0,
        ModuleState::Configured => 1,
        ModuleState::Online => 2,
        ModuleState::Fault => 3,
    }
}

/// The state a storage code reads as; unknown codes read as `Unknown`.
pub open spec fn module_of_code(v: u8) -> ModuleState {
    if v == 1 {
        ModuleState::Configured
    } else if v == 2 {
        ModuleState::Online
    } else if v == 3 {
        ModuleState::Fault
    } else {
        ModuleState::Unknown
    }
}

impl ModuleState {
    /// Decode a storage code.
    pub fn from_u8(v: u8) -> (s: Self)
        ensures
            s == module_of_code(v),
    {
        match v {
            1 => ModuleState::Configured,
            2 => ModuleState::Online,
            3 => ModuleState::Fault,
            _ => ModuleState::Unknown,
        }
    }

    /// The storage code.
    pub fn code(self) -> (c: u8)
        ensures
            c == module_code(self),
    {
        match self {
            ModuleState::Unknown => 0,
            ModuleState::Configured => 1,
            ModuleState::Online => 2,
            ModuleState::Fault => 3,
        }
    }

    /// The short label shown on the monitor.
    pub fn short(self) -> (label: &'static str)
        ensures
            label.spec_bytes() == label_bytes(self),
            self == ModuleState::Unknown ==> label@ == "UNK"@,
            self == ModuleState::Configured ==> label@ == "CFG"@,
            self == ModuleState::Online ==> label@ == "OK"@,
            self == ModuleState::Fault ==> label@ == "ERR"@,
    {
        match self {
            ModuleState::Unknown => "UNK",
            ModuleState::Configured => "CFG",
            ModuleState::Online => "OK",
            ModuleState::Fault => "ERR",
        }
    }
}

/// The bytes of a state's short label.
pub open spec fn label_bytes(s: ModuleState) -> Seq<u8> {
    match s {
        ModuleState::Unknown => "UNK".spec_bytes(),
        ModuleState::Configured => "CFG".spec_bytes(),
        ModuleState::Online => "OK".spec_bytes(),
        ModuleState::Fault => "ERR".spec_bytes(),
    }
}

/// Decoding the code of a state gives the state back.
pub proof fn lemma_module_code_roundtrip(s: ModuleState)
    ensures
        module_of_code(module_code(s)) == s,
{
}

/// The health of every module at one instant.
pub struct ModuleSnapshot {
    pub display: ModuleState,
    pub touch: ModuleState,
    pub audio: ModuleState,
    pub sd: ModuleState,
    pub battery: ModuleState,
    pub rgb: ModuleState,
    pub uart: ModuleState,
}

/// The stored health codes of the modules.
pub struct ModuleHealth {
    pub display: u8,
    pub touch: u8,
    pub audio: u8,
    pub sd: u8,
    pub battery: u8,
    pub rgb: u8,
    pub uart: u8,
}

impl ModuleHealth {
    /// Nothing probed yet.
    pub fn new() -> (h: Self)
        ensures
            h.display == 0 && h.touch == 0 && h.audio == 0 && h.sd == 0 && h.battery == 0 && h.rgb
                == 0 && h.uart == 0,
    {
        ModuleHealth { display: 0, touch: 0, audio: 0, sd: 0, battery: 0, rgb: 0, uart: 0 }
    }

    /// Record the display's health.
    pub fn set_display_state(&mut self, state: ModuleState)
        ensures
            *final(self) == (ModuleHealth { display: module_code(state), ..*old(self) }),
    {
        self.display = state.code();
    }

    /// Record the touch controller's health.
    pub fn set_touch_state(&mut self, state: ModuleState)
        ensures
            *final(self) == (ModuleHealth { touch: module_code(state), ..*old(self) }),
    {
        self.touch = state.code();
    }

    /// Record the audio codec's health.
    pub fn set_audio_state(&mut self, state: ModuleState)
        ensures
            *final(self) == (ModuleHealth { audio: module_code(state), ..*old(self) }),
    {
        self.audio = state.code();
    }

    /// Record the SD card's health.
    pub fn set_sd_state(&mut self, state: ModuleState)
        ensures
            *final(self) == (ModuleHealth { sd: module_code(state), ..*old(self) }),
    {
        self.sd = state.code();
    }

    /// Record the battery monitor's health.
    pub fn set_battery_state(&mut self, state: ModuleState)
        ensures
            *final(self) == (ModuleHealth { battery: module_code(state), ..*old(self) }),
    {
        self.battery = state.code();
    }

    /// Record the RGB LED's health.
    pub fn set_rgb_state(&mut self, state: ModuleState)
        ensures
            *final(self) == (ModuleHealth { rgb: module_code(state), ..*old(self) }),
    {
        self.rgb = state.code();
    }

    /// Record the UART's health.
    pub fn set_uart_state(&mut self, state: ModuleState)
        ensures
            *final(self) == (ModuleHealth { uart: module_code(state), ..*old(self) }),
    {
        self.uart = state.code();
    }

    /// The health of every module.
    pub fn snapshot(&self) -> (s: ModuleSnapshot)
        ensures
            s.display == module_of_code(self.display),
            s.touch == module_of_code(self.touch),
            s.audio == module_of_code(self.audio),
            s.sd == module_of_code(self.sd),
            s.battery == module_of_code(self.battery),
            s.rgb == module_of_code(self.rgb),
            s.uart == module_of_code(self.uart),
    {
        ModuleSnapshot {
            display: ModuleState::from_u8(self.display),
            touch: ModuleState::from_u8(self.touch),
            audio: ModuleState::from_u8(self.audio),
            sd: ModuleState::from_u8(self.sd),
            battery: ModuleState::from_u8(self.battery),
            rgb: ModuleState::from_u8(self.rgb),
            uart: ModuleState::from_u8(self.uart),
        }
    }
}

/// The boot monitor's status line for a snapshot:
/// `D:<display> T:<touch> A:<audio> SD:<sd> B:<battery> R:<rgb> U:<uart>`.
pub open spec fn status_line(s: ModuleSnapshot) -> Seq<u8> {
    "D:".spec_bytes() + label_bytes(s.display) + " T:".spec_bytes() + label_bytes(s.touch)
        + " A:".spec_bytes() + label_bytes(s.audio) + " SD:".spec_bytes() + label_bytes(s.sd)
        + " B:".spec_bytes() + label_bytes(s.battery) + " R:".spec_bytes() + label_bytes(s.rgb)
        + " U:".spec_bytes() + label_bytes(s.uart)
}

/// The boot monitor's status line.
pub fn boot_status_line(snap: &ModuleSnapshot) -> (line: Vec<u8>)
    ensures
        line@ == status_line(*snap),
{
    let mut line: Vec<u8> = Vec::new();
    push_text(&mut line, "D:");
    push_text(&mut line, snap.display.short());
    push_text(&mut line, " T:");
    push_text(&mut line, snap.touch.short());
    push_text(&mut line, " A:");
    push_text(&mut line, snap.audio.short());
    push_text(&mut line, " SD:");
    push_text(&mut line, snap.sd.short());
    push_text(&mut line, " B:");
    push_text(&mut line, snap.battery.short());
    push_text(&mut line, " R:");
    push_text(&mut line, snap.rgb.short());
    push_text(&mut line, " U:");
    push_text(&mut line, snap.uart.short());
    line
}

/// The WiFi label of the diagnostics log for a WiFi status code.
pub fn wifi_label(status: u8) -> (label: &'static str)
    ensures
        status == WIFI_STATUS_CONNECTED ==> label@ == "OK"@,
        status == WIFI_STATUS_CONNECTING ==> label@ == "CONN"@,
        status == WIFI_STATUS_ERROR ==> label@ == "ERR"@,
        status != WIFI_STATUS_CONNECTED && status != WIFI_STATUS_CONNECTING && status != WIFI_STATUS_ERROR
            ==> label@ == "OFF"@,
{
    if status == WIFI_STATUS_CONNECTED {
        "OK"
    } else if status == WIFI_STATUS_CONNECTING {
        "CONN"
    } else if status == WIFI_STATUS_ERROR {
        "ERR"
    } else {
        "OFF"
    }
}

/// Some module that this build cannot probe yet (touch, audio, SD card or
/// battery) is still unknown; the diagnostics log then says so.
pub fn probes_pending(snap: &ModuleSnapshot) -> (b: bool)
    ensures
        b == (snap.touch == ModuleState::Unknown || snap.audio == ModuleState::Unknown
            || snap.sd == ModuleState::Unknown || snap.battery == ModuleState::Unknown),
{
    snap.touch == ModuleState::Unknown || snap.audio == ModuleState::Unknown || snap.sd
        == ModuleState::Unknown || snap.battery == ModuleState::Unknown
}

} // verus!
