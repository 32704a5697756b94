//! A snapshot of what the host reports at one poll.

use crate::mode::Mode;
use crate::zone::{classify, zone_of, ThermalZone};
use vstd::prelude::*;

verus! {

/// The clock, in megahertz, that the estimate takes for a performance ceiling
/// of 100 percent.
pub const FULL_SPEED_MHZ: u32 = 4_000;

/// The clock estimate, in megahertz, for a performance ceiling given in
/// percent. A ceiling above 100 counts as 100.
pub open spec fn freq_mhz_at(perf_pct: int) -> int {
    if perf_pct >= 100 {
        FULL_SPEED_MHZ as int
    } else {
        FULL_SPEED_MHZ * perf_pct / 100
    }
}

/// The readings and the host state of one poll. A snapshot is never changed:
/// the next poll replaces it.
#[derive(Clone, Debug, PartialEq, Eq)]
pub struct ThermalState {
    /// CPU temperature in thousandths of a degree; zero or negative where the
    /// sensor could not be read.
    pub cpu_temp: i32,
    /// Keyboard temperature in thousandths of a degree.
    pub keyboard_temp: i32,
    /// The mode that the host reports as active, which need not be the one
    /// requested last.
    pub mode: Mode,
    /// The performance ceiling in percent, 0 to 100.
    pub perf_pct: u8,
    /// Whether the host reports the fan as boosted.
    pub fan_boost: bool,
    /// The profile that the host reports; shown, never interpreted.
    pub platform_profile: String,
}

impl ThermalState {
    /// The zone of the CPU temperature.
    pub fn thermal_zone(&self) -> (zone: ThermalZone)
        ensures
            zone == zone_of(self.cpu_temp as int),
    {
        classify(self.cpu_temp)
    }

    /// An estimate of the current clock in megahertz, from the performance
    /// ceiling.
    pub fn current_freq_mhz(&self) -> (mhz: u32)
        ensures
            mhz == freq_mhz_at(self.perf_pct as int),
            mhz <= FULL_SPEED_MHZ,
    {
        if self.perf_pct >= 100 {
            FULL_SPEED_MHZ
        } else {
            FULL_SPEED_MHZ * (self.perf_pct as u32) / 100
        }
    }
}

/// The clock estimate never falls when the performance ceiling rises.
pub proof fn lemma_freq_monotonic(lower: int, higher: int)
    requires
        0 <= lower <= higher,
    ensures
        freq_mhz_at(lower) <= freq_mhz_at(higher),
        0 <= freq_mhz_at(lower),
        freq_mhz_at(higher) <= FULL_SPEED_MHZ,
{
}

} // verus!
