//! Switches: their configuration.

use vstd::prelude::*;

use crate::constants;
use crate::entity::{EntityCommonConfig, EntityConfig};

verus! {

#[derive(Debug, Default, Clone, Copy, PartialEq, Eq, Structural)]
pub enum SwitchClass {
    #[default]
    Generic,
    Outlet,
    Switch,
}

#[derive(Debug, Default, Clone, Copy)]
pub struct SwitchConfig {
    pub common: EntityCommonConfig,
    pub class: SwitchClass,
    /// Whether a received command is taken as the switch's new state and published back.
    pub publish_on_command: bool,
}

impl SwitchClass {
    /// The device class announced for this class of switch.
    pub open spec fn spec_device_class(self) -> Option<&'static str> {
        match self {
            SwitchClass::Generic => None,
            SwitchClass::Outlet => Some(constants::HA_DEVICE_CLASS_SWITCH_OUTLET),
            SwitchClass::Switch => Some(constants::HA_DEVICE_CLASS_SWITCH_SWITCH),
        }
    }
}

impl SwitchConfig {
    /// `config` as a switch with this configuration announces it.
    pub open spec fn spec_populate(self, config: EntityConfig) -> EntityConfig {
        EntityConfig {
            domain: constants::HA_DOMAIN_SWITCH,
            device_class: self.class.spec_device_class(),
            ..self.common.spec_populate(config)
        }
    }

    /// Writes the switch's announcement into an entity's configuration.
    pub fn populate(&self, config: &mut EntityConfig)
        ensures
            *final(config) == self.spec_populate(*old(config)),
    {
        self.common.populate(config);
        config.domain = constants::HA_DOMAIN_SWITCH;
        config.device_class = match self.class {
            SwitchClass::Generic => None,
            SwitchClass::Outlet => Some(constants::HA_DEVICE_CLASS_SWITCH_OUTLET),
            SwitchClass::Switch => Some(constants::HA_DEVICE_CLASS_SWITCH_SWITCH),
        };
    }
}

} // verus!
