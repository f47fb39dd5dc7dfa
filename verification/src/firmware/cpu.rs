//! CPU load estimation from idle-loop counts: each second, the idle count
//! is compared with the highest idle count seen (which decays by 1% per
//! second when not exceeded).
use vstd::prelude::*;

verus! {

/// The idle baseline before any measurement.
pub const INITIAL_MAX_IDLE: u32 = 100_000;

/// The idle baseline after a second with `idle` idle-loop iterations.
pub open spec fn next_max_idle(max_idle: u32, idle: u32) -> u32 {
    if idle > max_idle { idle } else { (max_idle - max_idle / 100) as u32 }
}

/// The busy percentage for `idle` against the baseline `max_idle`
/// (taken as at least 1): 100 minus the idle share, the idle count capped at
/// the baseline.
pub open spec fn usage_pct(max_idle: u32, idle: u32) -> u32 {
    let m: int = if max_idle < 1 { 1 } else { max_idle as int };
    let i: int = if idle < m { idle as int } else { m };
    (100 - i * 100 / m) as u32
}

/// The load estimate of one core.
pub struct CoreLoad {
    /// The idle baseline.
    pub max_idle: u32,
    /// The busy percentage of the last second.
    pub usage_pct: u32,
}

impl CoreLoad {
    /// The initial estimate: baseline `INITIAL_MAX_IDLE`, 0% busy.
    pub fn new() -> (c: Self)
        ensures
            c.max_idle == INITIAL_MAX_IDLE,
            c.usage_pct == 0,
    {
        CoreLoad { max_idle: INITIAL_MAX_IDLE, usage_pct: 0 }
    }

    /// Account one second with `idle` idle-loop iterations.
    pub fn update(&mut self, idle: u32)
        requires
            ({
                let m = next_max_idle(old(self).max_idle, idle);
                let m1: int = if m < 1 { 1 } else { m as int };
                (if idle < m1 { idle as int } else { m1 }) * 100 <= u32::MAX
            }),
        ensures
            final(self).max_idle == next_max_idle(old(self).max_idle, idle),
            final(self).usage_pct == usage_pct(final(self).max_idle, idle),
            final(self).usage_pct <= 100,
    {
        if idle > self.max_idle {
            self.max_idle = idle;
        } else {
            self.max_idle = self.max_idle - self.max_idle / 100;
        }
        let m: u32 = if self.max_idle < 1 { 1 } else { self.max_idle };
        let i: u32 = if idle < m { idle } else { m };
        let idle_pct = i * 100 / m;
        assert(idle_pct <= 100) by (nonlinear_arith)
            requires
                idle_pct == (i * 100) as int / (m as int),
                i <= m,
                m >= 1,
        ;
        self.usage_pct = 100 - idle_pct;
    }
}

} // verus!
