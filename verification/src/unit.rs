//! Units of measurement that entities announce to Home Assistant.

use vstd::prelude::*;

use crate::constants;

verus! {

#[derive(Debug, Clone, Copy, PartialEq, Eq, Default)]
pub enum TemperatureUnit {
    #[default]
    Celcius,
    Kelvin,
    Fahrenheit,
    Other(&'static str),
}

impl TemperatureUnit {
    /// The unit as Home Assistant spells it.
    pub open spec fn spec_as_str(self) -> &'static str {
        match self {
            TemperatureUnit::Celcius => constants::HA_UNIT_TEMPERATURE_CELSIUS,
            TemperatureUnit::Kelvin => constants::HA_UNIT_TEMPERATURE_KELVIN,
            TemperatureUnit::Fahrenheit => constants::HA_UNIT_TEMPERATURE_FAHRENHEIT,
            TemperatureUnit::Other(other) => other,
        }
    }

    pub fn as_str(&self) -> (s: &'static str)
        ensures
            s == self.spec_as_str(),
    {
        match self {
            TemperatureUnit::Celcius => constants::HA_UNIT_TEMPERATURE_CELSIUS,
            TemperatureUnit::Kelvin => constants::HA_UNIT_TEMPERATURE_KELVIN,
            TemperatureUnit::Fahrenheit => constants::HA_UNIT_TEMPERATURE_FAHRENHEIT,
            TemperatureUnit::Other(other) => other,
        }
    }
}

#[derive(Debug, Clone, Copy, PartialEq, Eq)]
pub enum HumidityUnit {
    Percentage,
    Other(&'static str),
}

#[derive(Debug, Clone, Copy, PartialEq, Eq)]
pub enum BatteryUnit {
    Percentage,
}

#[derive(Debug, Clone, Copy, PartialEq, Eq)]
pub enum LightUnit {
    Lux,
}

#[derive(Debug, Clone, Copy, PartialEq, Eq)]
pub enum PressureUnit {
    HectoPascal,
}

#[derive(Debug, Clone, Copy, PartialEq, Eq)]
pub enum EnergyUnit {
    KiloWattHour,
}

} // verus!
