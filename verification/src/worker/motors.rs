//! The Worker's motor bridge: both target speeds packed in one word
//! (left in the high half, right in the low half) and the enable flag.
use vstd::prelude::*;

use crate::wire::{i16_bits, i16_from_bits, i16_of_bits, i16_to_bits};

verus! {

/// The packed command word of the speeds `left` and `right`.
pub open spec fn packed_command(left: i16, right: i16) -> u32 {
    (i16_bits(left) * 0x1_0000 + i16_bits(right)) as u32
}

/// The speeds a command word carries.
pub open spec fn unpacked_command(w: u32) -> (i16, i16) {
    (i16_from_bits((w / 0x1_0000) as u16), i16_from_bits((w % 0x1_0000) as u16))
}

/// The packed motor command and the enable flag.
pub struct MotorState {
    /// `[left as u16][right as u16]`.
    pub command: u32,
    /// `0` = disabled (dead-man's switch), anything else = enabled.
    pub enabled: u8,
}

impl MotorState {
    /// The power-on state: stopped, enabled.
    pub fn new() -> (m: Self)
        ensures
            m.command == 0,
            m.enabled == 1,
    {
        MotorState { command: 0, enabled: 1 }
    }

    /// Store a new command.
    pub fn store_motor_command(&mut self, left: i16, right: i16)
        ensures
            final(self).command == packed_command(left, right),
            final(self).enabled == old(self).enabled,
    {
        let hi = i16_to_bits(left) as u32;
        let lo = i16_to_bits(right) as u32;
        self.command = hi * 0x1_0000 + lo;
    }

    /// Enable or disable the motors; disabling also zeroes the command.
    pub fn set_motor_enabled(&mut self, enabled: bool)
        ensures
            final(self).enabled == (if enabled { 1u8 } else { 0u8 }),
            enabled ==> final(self).command == old(self).command,
            !enabled ==> final(self).command == 0,
    {
        self.enabled = if enabled { 1 } else { 0 };
        if !enabled {
            self.command = 0;
        }
    }

    /// The stored `(left, right)` speeds.
    pub fn load_motor_command(&self) -> (r: (i16, i16))
        ensures
            r == unpacked_command(self.command),
    {
        let w = self.command;
        (i16_of_bits((w / 0x1_0000) as u16), i16_of_bits((w % 0x1_0000) as u16))
    }

    /// Whether the motors are enabled.
    pub fn is_motor_enabled(&self) -> (b: bool)
        ensures
            b == (self.enabled != 0),
    {
        self.enabled != 0
    }
}

/// Loading a stored command gives back both speeds.
pub proof fn lemma_packed_command_roundtrip(left: i16, right: i16)
    ensures
        unpacked_command(packed_command(left, right)) == (left, right),
{
    let h = i16_bits(left) as int;
    let l = i16_bits(right) as int;
    assert((h * 0x1_0000 + l) / 0x1_0000 == h && (h * 0x1_0000 + l) % 0x1_0000 == l) by (nonlinear_arith)
        requires
            0 <= h < 0x1_0000,
            0 <= l < 0x1_0000,
    ;
    crate::wire::lemma_i16_bits_roundtrip(left);
    crate::wire::lemma_i16_bits_roundtrip(right);
}

/// A disabled bridge reads as stopped.
pub proof fn lemma_disabled_reads_stopped()
    ensures
        unpacked_command(0) == (0i16, 0i16),
{
}

} // verus!
