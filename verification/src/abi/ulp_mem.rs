//! Byte offsets inside the ULP-accessible RTC SLOW memory region.
use vstd::prelude::*;

verus! {

/// Flag set by the ULP when temperature exceeds the threshold (u32: 0/1).
pub const TEMP_OVER_THRESHOLD: usize = 0;

/// Last measured temperature in tenths of a degree Celsius (u32).
pub const LAST_TEMP_TENTHS: usize = 4;

/// Flag set by the ULP when VDD is below the critical voltage (u32: 0/1).
pub const LOW_VOLTAGE_FLAG: usize = 8;

/// Last measured supply voltage in millivolts (u32).
pub const LAST_VOLTAGE_MV: usize = 12;

} // verus!
