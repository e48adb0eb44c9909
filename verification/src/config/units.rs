//! Measurement systems and the temperature unit each one reads in.

use vstd::prelude::*;

verus! {

/// The measurement system of the user's locale.
#[derive(Clone, Copy, Debug, PartialEq, Eq, Structural)]
pub enum UnitSystem {
    Metric,
    Imperial,
}

/// A temperature scale.
#[derive(Clone, Copy, Debug, PartialEq, Eq, Structural)]
pub enum TemperatureUnit {
    Celsius,
    Fahrenheit,
}

/// `celsius` degrees Celsius in `unit`, rounded down to whole degrees.
pub open spec fn convert_celsius_spec(unit: TemperatureUnit, celsius: int) -> int {
    match unit {
        TemperatureUnit::Celsius => celsius,
        TemperatureUnit::Fahrenheit => (celsius * 9) / 5 + 32,
    }
}

impl UnitSystem {
    /// The temperature scale of the measurement system.
    pub fn temperature_unit(self) -> (u: TemperatureUnit)
        ensures
            u == (match self {
                UnitSystem::Metric => TemperatureUnit::Celsius,
                UnitSystem::Imperial => TemperatureUnit::Fahrenheit,
            }),
    {
        match self {
            UnitSystem::Metric => TemperatureUnit::Celsius,
            UnitSystem::Imperial => TemperatureUnit::Fahrenheit,
        }
    }
}

impl TemperatureUnit {
    /// Converts a temperature given in degrees Celsius into this unit,
    /// rounding down; the result must fit in an `i32`.
    pub fn convert_celsius(self, celsius: i32) -> (t: i32)
        requires
            i32::MIN <= convert_celsius_spec(self, celsius as int) <= i32::MAX,
        ensures
            t == convert_celsius_spec(self, celsius as int),
    {
        match self {
            TemperatureUnit::Celsius => celsius,
            TemperatureUnit::Fahrenheit => {
                let x: i64 = (celsius as i64) * 9;
                let q: i64 = if x >= 0 {
                    x / 5
                } else {
                    -((-x + 4) / 5)
                };
                proof {
                    if x < 0 {
                        let xi = x as int;
                        vstd::arithmetic::div_mod::lemma_fundamental_div_mod(xi, 5);
                        vstd::arithmetic::div_mod::lemma_mod_bound(xi, 5);
                        let fq = xi / 5;
                        let r = xi % 5;
                        assert(-xi + 4 == (-fq) * 5 + (4 - r));
                        vstd::arithmetic::div_mod::lemma_fundamental_div_mod_converse_div(
                            -xi + 4,
                            5,
                            -fq,
                            4 - r,
                        );
                    }
                }
                (q + 32) as i32
            },
        }
    }
}

} // verus!
