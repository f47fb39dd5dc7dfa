//! The servo motor bridge: the latest motor command and the enable flag,
//! shared between the router (writer) and the servo reflex task (reader).
use vstd::prelude::*;

use crate::wire::{i16_of_bits, i16_to_bits};
use crate::worker::motors::{lemma_packed_command_roundtrip, packed_command, unpacked_command};

verus! {

/// Duty cycle (percent) of the servo's center position.
pub const DUTY_CENTER: u8 = 7;

/// Duty cycle (percent) of the servo's flinch position.
pub const DUTY_FLINCH: u8 = 10;

/// Obstacles nearer than this (in millimetres) trigger the flinch reflex.
pub const TOF_THRESHOLD_MM: u32 = 200;

/// The motor command word and the enable flag.
pub struct MotorBridge {
    /// The command word: both speeds packed, the left speed's 16 bits
    /// above the right speed's.
    pub command: u32,
    /// `0` = disabled, anything else = enabled.
    pub enabled: u8,
}

impl MotorBridge {
    /// The power-on state: stopped, motors enabled.
    pub fn new() -> (m: Self)
        ensures
            m.command == packed_command(0, 0),
            unpacked_command(m.command) == (0i16, 0i16),
            m.enabled == 1,
    {
        MotorBridge { command: 0, enabled: 1 }
    }

    /// Store the left and right speeds for Core 1, which blends both with
    /// its balance correction. Always succeeds.
    pub fn store_motor_command(&mut self, left: i16, right: i16) -> (ok: bool)
        ensures
            ok,
            final(self).command == packed_command(left, right),
            unpacked_command(final(self).command) == (left, right),
            final(self).enabled == old(self).enabled,
    {
        let hi = i16_to_bits(left) as u32;
        let lo = i16_to_bits(right) as u32;
        self.command = hi * 0x1_0000 + lo;
        proof {
            lemma_packed_command_roundtrip(left, right);
        }
        true
    }

    /// The stored `(left, right)` speeds.
    pub fn load_motor_command(&self) -> (r: (i16, i16))
        ensures
            r == unpacked_command(self.command),
    {
        let w = self.command;
        (i16_of_bits((w / 0x1_0000) as u16), i16_of_bits((w % 0x1_0000) as u16))
    }

    /// Enable or disable the motors.
    pub fn set_motor_enabled(&mut self, enabled: bool)
        ensures
            final(self).enabled == (if enabled { 1u8 } else { 0u8 }),
            final(self).command == old(self).command,
    {
        self.enabled = if enabled { 1 } else { 0 };
    }

    /// Whether the motors are enabled.
    pub fn is_motor_enabled(&self) -> (b: bool)
        ensures
            b == (self.enabled != 0),
    {
        self.enabled != 0
    }
}

/// The servo duty the reflex task applies: `None` (no change) while the
/// motors are disabled, the flinch duty for an obstacle nearer than
/// `TOF_THRESHOLD_MM`, the center duty otherwise.
pub fn reflex_duty(motors: &MotorBridge, distance_mm: u32) -> (d: Option<u8>)
    ensures
        motors.enabled == 0 ==> d is None,
        motors.enabled != 0 && distance_mm < TOF_THRESHOLD_MM ==> d == Some(DUTY_FLINCH),
        motors.enabled != 0 && distance_mm >= TOF_THRESHOLD_MM ==> d == Some(DUTY_CENTER),
{
    if !motors.is_motor_enabled() {
        return None;
    }
    if distance_mm < TOF_THRESHOLD_MM {
        Some(DUTY_FLINCH)
    } else {
        Some(DUTY_CENTER)
    }
}

/// Loading a stored command gives back both speeds.
pub proof fn lemma_motor_command_roundtrip(left: i16, right: i16)
    ensures
        unpacked_command(packed_command(left, right)) == (left, right),
{
    lemma_packed_command_roundtrip(left, right);
}

} // verus!
