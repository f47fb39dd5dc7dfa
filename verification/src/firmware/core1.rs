//! Core 1's real-time helpers: the synthesised IMU signal and the blending
//! of the balance output with the steering command.
use vstd::prelude::*;

use crate::abi::ImuReading;

verus! {

/// Period of the synthesised IMU oscillation, in ticks.
pub const IMU_PERIOD_TICKS: i64 = 500;

/// Amplitude of the synthesised oscillation, in millidegrees.
pub const IMU_AMPLITUDE_MILLIDEG: i64 = 30_000;

/// Saturate to the `i16` range.
pub fn clamp_i16(v: i32) -> (r: i16)
    ensures
        r == (if v < i16::MIN { i16::MIN as int } else if v > i16::MAX { i16::MAX as int } else { v as int }),
{
    if v < i16::MIN as i32 {
        i16::MIN
    } else if v > i16::MAX as i32 {
        i16::MAX
    } else {
        v as i16
    }
}

/// The motor output of one side: the balance correction plus the steering
/// command (saturating in `i32`), clamped to `i16`.
pub fn blend_steering(balance: i32, command: i16) -> (r: i16)
    ensures
        ({
            let sum: int = balance + command;
            let sat: int = if sum > i32::MAX { i32::MAX as int } else if sum < i32::MIN { i32::MIN as int } else { sum };
            r == (if sat < i16::MIN { i16::MIN as int } else if sat > i16::MAX { i16::MAX as int } else { sat })
        }),
{
    let sum: i64 = balance as i64 + command as i64;
    let sat: i32 = if sum > i32::MAX as i64 {
        i32::MAX
    } else if sum < i32::MIN as i64 {
        i32::MIN
    } else {
        sum as i32
    };
    clamp_i16(sat)
}

/// The triangle wave at `phase` (in ticks, within one period): rising by
/// 120 millidegrees per tick for the first half period, then falling back.
pub open spec fn triangle_millideg(phase: int) -> int {
    if phase < 250 { phase * 120 } else { (500 - phase) * 120 }
}

/// The triangle wave at a phase within one period.
fn triangle(phase: u64) -> (r: i32)
    requires
        phase < 500,
    ensures
        r == triangle_millideg(phase as int),
        0 <= r <= IMU_AMPLITUDE_MILLIDEG,
{
    let p = phase as i64;
    if p < IMU_PERIOD_TICKS / 2 {
        (p * (IMU_AMPLITUDE_MILLIDEG / (IMU_PERIOD_TICKS / 2))) as i32
    } else {
        ((IMU_PERIOD_TICKS - p) * (IMU_AMPLITUDE_MILLIDEG / (IMU_PERIOD_TICKS / 2))) as i32
    }
}

/// A synthetic IMU reading for `tick`: pitch and roll follow a ±30° triangle
/// wave of 500 ticks, roll a quarter period ahead of pitch.
pub fn simulate_imu(tick: u64) -> (r: ImuReading)
    ensures
        r.pitch_millideg == triangle_millideg(tick as int % 500),
        r.roll_millideg == triangle_millideg((tick as int + 125) % 500),
        -IMU_AMPLITUDE_MILLIDEG <= r.pitch_millideg <= IMU_AMPLITUDE_MILLIDEG,
        -IMU_AMPLITUDE_MILLIDEG <= r.roll_millideg <= IMU_AMPLITUDE_MILLIDEG,
{
    let pitch_phase = tick % 500;
    let roll_phase = (pitch_phase + 125) % 500;
    assert((tick as int + 125) % 500 == (tick as int % 500 + 125) % 500) by (nonlinear_arith);
    ImuReading { pitch_millideg: triangle(pitch_phase), roll_millideg: triangle(roll_phase) }
}

} // verus!
