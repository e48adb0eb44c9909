//! The clock and weather module: wind-speed units and what the weather
//! indicator shows.

use crate::config::units::UnitSystem;
use vstd::prelude::*;

verus! {

/// Unit wind speeds are shown in.
#[derive(Clone, Copy, Debug, PartialEq, Eq, Structural)]
pub enum WindSpeedUnit {
    Kmh,
    Mph,
    Ms,
}

impl Default for WindSpeedUnit {
    fn default() -> (u: Self)
        ensures
            u == WindSpeedUnit::Kmh,
    {
        WindSpeedUnit::Kmh
    }
}

/// The symbol shown after a wind speed.
pub open spec fn symbol_spec(unit: WindSpeedUnit) -> Seq<char> {
    match unit {
        WindSpeedUnit::Kmh => "km/h"@,
        WindSpeedUnit::Mph => "mph"@,
        WindSpeedUnit::Ms => "m/s"@,
    }
}

/// The unit's name in weather-service requests.
pub open spec fn api_param_spec(unit: WindSpeedUnit) -> Seq<char> {
    match unit {
        WindSpeedUnit::Kmh => "kmh"@,
        WindSpeedUnit::Mph => "mph"@,
        WindSpeedUnit::Ms => "ms"@,
    }
}

impl WindSpeedUnit {
    /// The symbol shown after a wind speed.
    pub fn symbol(self) -> (s: &'static str)
        ensures
            s@ == symbol_spec(self),
    {
        match self {
            WindSpeedUnit::Kmh => "km/h",
            WindSpeedUnit::Mph => "mph",
            WindSpeedUnit::Ms => "m/s",
        }
    }

    /// The unit's name in weather-service requests.
    pub fn api_param(self) -> (s: &'static str)
        ensures
            s@ == api_param_spec(self),
    {
        match self {
            WindSpeedUnit::Kmh => "kmh",
            WindSpeedUnit::Mph => "mph",
            WindSpeedUnit::Ms => "ms",
        }
    }
}

/// Distinct units have distinct symbols and distinct request names.
pub proof fn law_wind_units_distinguishable(a: WindSpeedUnit, b: WindSpeedUnit)
    requires
        a != b,
    ensures
        symbol_spec(a) != symbol_spec(b),
        api_param_spec(a) != api_param_spec(b),
{
    broadcast use vstd::string::group_string_axioms;

    reveal_strlit("km/h");
    reveal_strlit("mph");
    reveal_strlit("m/s");
    reveal_strlit("kmh");
    reveal_strlit("ms");
    assert("km/h"@.len() == 4 && "mph"@.len() == 3 && "m/s"@.len() == 3);
    assert("mph"@[1] == 'p' && "m/s"@[1] == '/');
    assert("kmh"@.len() == 3 && "ms"@.len() == 2);
    assert("kmh"@[0] == 'k' && "mph"@[0] == 'm');
}

/// The wind-speed unit in effect: the configured one, else miles per hour
/// for the imperial system and kilometres per hour for the metric one.
pub fn resolve_wind_speed_unit(configured: Option<WindSpeedUnit>, system: UnitSystem) -> (u:
    WindSpeedUnit)
    ensures
        u == (match configured {
            Some(c) => c,
            None => match system {
                UnitSystem::Imperial => WindSpeedUnit::Mph,
                UnitSystem::Metric => WindSpeedUnit::Kmh,
            },
        }),
{
    match configured {
        Some(unit) => unit,
        None => match system {
            UnitSystem::Imperial => WindSpeedUnit::Mph,
            UnitSystem::Metric => WindSpeedUnit::Kmh,
        },
    }
}

/// What the weather indicator shows.
#[derive(Clone, Copy, Debug, PartialEq, Eq, Structural)]
pub enum WeatherIndicator {
    IconAndTemperature,
    Icon,
    /// Nothing at all (`None` in the configuration file).
    Hidden,
}

impl Default for WeatherIndicator {
    fn default() -> (w: Self)
        ensures
            w == WeatherIndicator::IconAndTemperature,
    {
        WeatherIndicator::IconAndTemperature
    }
}

} // verus!
