//! Temperature sensors: their configuration.

use vstd::prelude::*;

use crate::constants;
use crate::entity::{EntityCommonConfig, EntityConfig};
use crate::unit::TemperatureUnit;

verus! {

#[derive(Debug, Default, Clone, Copy)]
pub struct TemperatureSensorConfig {
    pub common: EntityCommonConfig,
    pub unit: TemperatureUnit,
}

impl TemperatureSensorConfig {
    /// `config` as a temperature sensor with this configuration announces it.
    pub open spec fn spec_populate(self, config: EntityConfig) -> EntityConfig {
        EntityConfig {
            domain: constants::HA_DOMAIN_SENSOR,
            device_class: Some(constants::HA_DEVICE_CLASS_SENSOR_TEMPERATURE),
            measurement_unit: Some(self.unit.spec_as_str()),
            ..self.common.spec_populate(config)
        }
    }

    /// Writes the sensor's announcement into an entity's configuration.
    pub fn populate(&self, config: &mut EntityConfig)
        ensures
            *final(config) == self.spec_populate(*old(config)),
    {
        self.common.populate(config);
        config.domain = constants::HA_DOMAIN_SENSOR;
        config.device_class = Some(constants::HA_DEVICE_CLASS_SENSOR_TEMPERATURE);
        config.measurement_unit = Some(self.unit.as_str());
    }
}

} // verus!
