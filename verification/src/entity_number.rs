//! Numbers: their configuration. Their bounds and step are held as decimal text.

use vstd::prelude::*;

use crate::constants;
use crate::entity::{EntityCommonConfig, EntityConfig};

verus! {

#[derive(Debug, Default)]
pub struct NumberConfig {
    pub common: EntityCommonConfig,
    /// The unit of measurement announced.
    pub unit: Option<&'static str>,
    /// The device class announced, such as "distance".
    pub class: Option<&'static str>,
    pub min: Option<String>,
    pub max: Option<String>,
    pub step: Option<String>,
    /// How Home Assistant shows the number: "auto", "box" or "slider".
    pub mode: Option<&'static str>,
    /// Whether a received value is taken as the number's new state and published back.
    pub publish_on_command: bool,
}

/// A copy of an optional text.
fn clone_text(t: &Option<String>) -> (r: Option<String>)
    ensures
        r == *t,
{
    match t {
        Some(s) => Some(s.clone()),
        None => None,
    }
}

impl NumberConfig {
    /// `config` as a number with this configuration announces it.
    pub open spec fn spec_populate(self, config: EntityConfig) -> EntityConfig {
        EntityConfig {
            domain: constants::HA_DOMAIN_NUMBER,
            device_class: self.class,
            measurement_unit: self.unit,
            min: self.min,
            max: self.max,
            step: self.step,
            mode: self.mode,
            ..self.common.spec_populate(config)
        }
    }

    /// Writes the number's announcement into an entity's configuration.
    pub fn populate(&self, config: &mut EntityConfig)
        ensures
            *final(config) == self.spec_populate(*old(config)),
    {
        self.common.populate(config);
        config.domain = constants::HA_DOMAIN_NUMBER;
        config.device_class = self.class;
        config.measurement_unit = self.unit;
        config.min = clone_text(&self.min);
        config.max = clone_text(&self.max);
        config.step = clone_text(&self.step);
        config.mode = self.mode;
    }
}

} // verus!
