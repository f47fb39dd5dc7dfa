//! Shared sensor readings: the time-of-flight distance and the IMU slot.
use vstd::prelude::*;

use crate::abi::ImuReading;

verus! {

/// The distance reported before the first measurement, in millimetres.
pub const TOF_NO_READING_MM: u32 = 9999;

/// Latest readings, written by the sensor tasks and read by the reflexes.
pub struct SensorState {
    /// Latest VL53L0X distance in millimetres.
    pub tof_distance_mm: u32,
    /// Latest IMU reading published by Core 1's real-time loop.
    pub imu: ImuReading,
}

impl SensorState {
    /// No distance measured yet; the IMU reads level until the first
    /// reading is published.
    pub fn new() -> (s: Self)
        ensures
            s.tof_distance_mm == TOF_NO_READING_MM,
            s.imu == (ImuReading { pitch_millideg: 0, roll_millideg: 0 }),
    {
        SensorState { tof_distance_mm: TOF_NO_READING_MM, imu: ImuReading { pitch_millideg: 0, roll_millideg: 0 } }
    }

    /// Record a distance measurement.
    pub fn store_tof_distance(&mut self, mm: u32)
        ensures
            *final(self) == (SensorState { tof_distance_mm: mm, ..*old(self) }),
    {
        self.tof_distance_mm = mm;
    }

    /// The latest distance.
    pub fn load_tof_distance(&self) -> (mm: u32)
        ensures
            mm == self.tof_distance_mm,
    {
        self.tof_distance_mm
    }

    /// Publish an IMU reading.
    pub fn store_imu(&mut self, reading: ImuReading)
        ensures
            *final(self) == (SensorState { imu: reading, ..*old(self) }),
    {
        self.imu = reading;
    }

    /// The reading last published.
    pub fn load_imu(&self) -> (r: ImuReading)
        ensures
            r == self.imu,
    {
        self.imu
    }
}

} // verus!
