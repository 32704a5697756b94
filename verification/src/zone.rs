//! Thermal zones and the classifier that maps a temperature to its zone.

use vstd::prelude::*;

verus! {

/// Lowest temperature of [`ThermalZone::Comfort`], in thousandths of a degree.
pub const COMFORT_FROM: i32 = 40_000;

/// Lowest temperature of [`ThermalZone::Optimal`], in thousandths of a degree.
pub const OPTIMAL_FROM: i32 = 50_000;

/// Lowest temperature of [`ThermalZone::Warm`], in thousandths of a degree.
pub const WARM_FROM: i32 = 60_000;

/// Lowest temperature of [`ThermalZone::Hot`], in thousandths of a degree.
pub const HOT_FROM: i32 = 70_000;

/// Lowest temperature of [`ThermalZone::Critical`], in thousandths of a degree.
pub const CRITICAL_FROM: i32 = 80_000;

/// A severity bucket of the CPU temperature, mildest first.
#[derive(Clone, Copy, Debug, PartialEq, Eq, Hash, Structural)]
pub enum ThermalZone {
    Cool,
    Comfort,
    Optimal,
    Warm,
    Hot,
    Critical,
}

impl ThermalZone {
    /// Position of the zone in the order of increasing severity.
    pub open spec fn severity(self) -> int {
        match self {
            ThermalZone::Cool => 0,
            ThermalZone::Comfort => 1,
            ThermalZone::Optimal => 2,
            ThermalZone::Warm => 3,
            ThermalZone::Hot => 4,
            ThermalZone::Critical => 5,
        }
    }

    /// The lowest temperature of the zone. `Cool` has none: it reaches down
    /// without bound.
    pub open spec fn lowest(self) -> Option<int> {
        match self {
            ThermalZone::Cool => None,
            ThermalZone::Comfort => Some(COMFORT_FROM as int),
            ThermalZone::Optimal => Some(OPTIMAL_FROM as int),
            ThermalZone::Warm => Some(WARM_FROM as int),
            ThermalZone::Hot => Some(HOT_FROM as int),
            ThermalZone::Critical => Some(CRITICAL_FROM as int),
        }
    }

    /// The first temperature above the zone. `Critical` has none: it reaches up
    /// without bound.
    pub open spec fn end(self) -> Option<int> {
        match self {
            ThermalZone::Cool => Some(COMFORT_FROM as int),
            ThermalZone::Comfort => Some(OPTIMAL_FROM as int),
            ThermalZone::Optimal => Some(WARM_FROM as int),
            ThermalZone::Warm => Some(HOT_FROM as int),
            ThermalZone::Hot => Some(CRITICAL_FROM as int),
            ThermalZone::Critical => None,
        }
    }

    /// Whether `temp` lies in the zone's range, which is closed below and open above.
    pub open spec fn contains(self, temp: int) -> bool {
        &&& self.lowest() matches Some(low) ==> low <= temp
        &&& self.end() matches Some(end) ==> temp < end
    }

    /// The zone's name as shown to the operator.
    pub open spec fn label_text(self) -> Seq<char> {
        match self {
            ThermalZone::Cool => "Cool"@,
            ThermalZone::Comfort => "Comfort"@,
            ThermalZone::Optimal => "Optimal"@,
            ThermalZone::Warm => "Warm"@,
            ThermalZone::Hot => "Hot"@,
            ThermalZone::Critical => "Critical"@,
        }
    }

    /// The zone's display colour as red, green and blue.
    pub open spec fn rgb(self) -> (u8, u8, u8) {
        match self {
            ThermalZone::Cool => (100u8, 180u8, 255u8),
            ThermalZone::Comfort => (100u8, 220u8, 180u8),
            ThermalZone::Optimal => (100u8, 220u8, 100u8),
            ThermalZone::Warm => (255u8, 220u8, 100u8),
            ThermalZone::Hot => (255u8, 150u8, 100u8),
            ThermalZone::Critical => (255u8, 80u8, 80u8),
        }
    }

    /// Position of the zone in the order of increasing severity, from 0 for
    /// `Cool` to 5 for `Critical`.
    pub fn severity_rank(&self) -> (rank: u8)
        ensures
            rank == self.severity(),
    {
        match self {
            ThermalZone::Cool => 0,
            ThermalZone::Comfort => 1,
            ThermalZone::Optimal => 2,
            ThermalZone::Warm => 3,
            ThermalZone::Hot => 4,
            ThermalZone::Critical => 5,
        }
    }

    /// The zone's name as shown to the operator.
    pub fn label(&self) -> (text: &'static str)
        ensures
            text@ == self.label_text(),
    {
        match self {
            ThermalZone::Cool => "Cool",
            ThermalZone::Comfort => "Comfort",
            ThermalZone::Optimal => "Optimal",
            ThermalZone::Warm => "Warm",
            ThermalZone::Hot => "Hot",
            ThermalZone::Critical => "Critical",
        }
    }

    /// The zone's display colour as red, green and blue.
    pub fn color_rgb(&self) -> (color: (u8, u8, u8))
        ensures
            color == self.rgb(),
    {
        match self {
            ThermalZone::Cool => (100, 180, 255),
            ThermalZone::Comfort => (100, 220, 180),
            ThermalZone::Optimal => (100, 220, 100),
            ThermalZone::Warm => (255, 220, 100),
            ThermalZone::Hot => (255, 150, 100),
            ThermalZone::Critical => (255, 80, 80),
        }
    }
}

/// The zone of a temperature given in thousandths of a degree.
pub open spec fn zone_of(temp: int) -> ThermalZone {
    if temp < COMFORT_FROM {
        ThermalZone::Cool
    } else if temp < OPTIMAL_FROM {
        ThermalZone::Comfort
    } else if temp < WARM_FROM {
        ThermalZone::Optimal
    } else if temp < HOT_FROM {
        ThermalZone::Warm
    } else if temp < CRITICAL_FROM {
        ThermalZone::Hot
    } else {
        ThermalZone::Critical
    }
}

/// Maps a CPU temperature, in thousandths of a degree, to its zone. Every input
/// has a zone; zero and negative readings, which a failed sensor read may
/// produce, are `Cool`.
pub fn classify(cpu_temp: i32) -> (zone: ThermalZone)
    ensures
        zone == zone_of(cpu_temp as int),
        zone.contains(cpu_temp as int),
        cpu_temp <= 0 ==> zone == ThermalZone::Cool,
{
    if cpu_temp < COMFORT_FROM {
        ThermalZone::Cool
    } else if cpu_temp < OPTIMAL_FROM {
        ThermalZone::Comfort
    } else if cpu_temp < WARM_FROM {
        ThermalZone::Optimal
    } else if cpu_temp < HOT_FROM {
        ThermalZone::Warm
    } else if cpu_temp < CRITICAL_FROM {
        ThermalZone::Hot
    } else {
        ThermalZone::Critical
    }
}

/// The ranges of the zones cover every temperature and do not overlap: a
/// temperature lies in the range of its zone and in no other.
pub proof fn lemma_zones_partition(temp: int, zone: ThermalZone)
    ensures
        zone.contains(temp) <==> zone == zone_of(temp),
{
}

/// The ranges of the zones are contiguous and rise with severity: each zone
/// but the last ends where the next one begins.
pub proof fn lemma_zones_contiguous(zone: ThermalZone, next: ThermalZone)
    requires
        next.severity() == zone.severity() + 1,
    ensures
        zone.end() is Some,
        zone.end() == next.lowest(),
        zone.lowest() matches Some(low) ==> low < zone.end().unwrap(),
{
}

/// Classification is monotonic: a temperature that is no lower has a zone that
/// is no milder.
pub proof fn lemma_classify_monotonic(a: int, b: int)
    requires
        a <= b,
    ensures
        zone_of(a).severity() <= zone_of(b).severity(),
{
}

/// No two zones share a display colour.
pub proof fn lemma_zone_colors_distinct(a: ThermalZone, b: ThermalZone)
    requires
        a.rgb() == b.rgb(),
    ensures
        a == b,
{
}

} // verus!
