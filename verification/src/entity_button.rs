//! Buttons: their configuration.

use vstd::prelude::*;

use crate::constants;
use crate::entity::{EntityCommonConfig, EntityConfig};

verus! {

#[derive(Debug, Default, Clone, Copy)]
pub struct ButtonConfig {
    pub common: EntityCommonConfig,
}

impl ButtonConfig {
    /// `config` as a button with this configuration announces it.
    pub open spec fn spec_populate(self, config: EntityConfig) -> EntityConfig {
        EntityConfig { domain: constants::HA_DOMAIN_BUTTON, ..self.common.spec_populate(config) }
    }

    /// Writes the button's announcement into an entity's configuration.
    pub fn populate(&self, config: &mut EntityConfig)
        ensures
            *final(config) == self.spec_populate(*old(config)),
    {
        self.common.populate(config);
        config.domain = constants::HA_DOMAIN_BUTTON;
    }
}

} // verus!
