//! Binary sensors: their configuration.

use vstd::prelude::*;

use crate::constants;
use crate::entity::{EntityCommonConfig, EntityConfig};

verus! {

#[derive(Debug, Default, Clone, Copy)]
pub struct BinarySensorConfig {
    pub common: EntityCommonConfig,
    /// The device class announced, such as "door" or "motion".
    pub class: Option<&'static str>,
}

impl BinarySensorConfig {
    /// `config` as a binary sensor with this configuration announces it.
    pub open spec fn spec_populate(self, config: EntityConfig) -> EntityConfig {
        EntityConfig {
            domain: constants::HA_DOMAIN_BINARY_SENSOR,
            device_class: self.class,
            ..self.common.spec_populate(config)
        }
    }

    /// Writes the binary sensor's announcement into an entity's configuration.
    pub fn populate(&self, config: &mut EntityConfig)
        ensures
            *final(config) == self.spec_populate(*old(config)),
    {
        self.common.populate(config);
        config.domain = constants::HA_DOMAIN_BINARY_SENSOR;
        config.device_class = self.class;
    }
}

} // verus!
