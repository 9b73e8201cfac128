//! What the device knows of each entity: its announced configuration, its stored
//! state and commands, and the two flags that the MQTT loop and the entity's handle
//! exchange (a state waits to be published; a command waits to be taken).

use vstd::prelude::*;

use crate::binary_state::BinaryState;
use crate::entity_light::{LightCommand, LightState};

verus! {

#[verifier::external_type_specification]
#[verifier::external_body]
pub struct ExInstant(embassy_time::Instant);

/// `embassy_time::Instant::now`: the current time. Nothing is claimed of the result.
#[verifier::external_body]
pub(crate) fn instant_now() -> embassy_time::Instant {
    embassy_time::Instant::now()
}

/// Configuration that every kind of entity shares.
#[derive(Debug, Default, Clone, Copy)]
pub struct EntityCommonConfig {
    pub name: Option<&'static str>,
    pub icon: Option<&'static str>,
    pub picture: Option<&'static str>,
}

/// What a received command does to the entity's own state.
#[derive(Debug, Default, Clone, Copy, PartialEq, Eq, Structural)]
pub enum CommandPolicy {
    /// A command is taken as the entity's new state and published back.
    #[default]
    PublishState,
    /// A command is only recorded; the application sets the state itself.
    Manual,
}

/// Everything that is announced to Home Assistant about one entity.
#[derive(Debug)]
pub struct EntityConfig {
    pub id: &'static str,
    pub name: Option<&'static str>,
    pub domain: &'static str,
    pub device_class: Option<&'static str>,
    pub measurement_unit: Option<&'static str>,
    pub schema: Option<&'static str>,
    pub state_class: Option<&'static str>,
    pub icon: Option<&'static str>,
    pub picture: Option<&'static str>,
    pub mode: Option<&'static str>,
    /// The least value of a number entity, as decimal text.
    pub min: Option<String>,
    /// The greatest value of a number entity, as decimal text.
    pub max: Option<String>,
    /// The step between values of a number entity, as decimal text.
    pub step: Option<String>,
    pub suggested_display_precision: Option<u8>,
    pub light_brightness: bool,
    pub light_color_temp: bool,
    pub light_rgb: bool,
    pub light_min_mireds: Option<u16>,
    pub light_max_mireds: Option<u16>,
    pub light_color_modes: Option<&'static [&'static str]>,
}

/// The configuration that nothing has filled in yet.
pub open spec fn spec_empty_entity_config() -> EntityConfig {
    EntityConfig {
        id: "",
        name: None,
        domain: "",
        device_class: None,
        measurement_unit: None,
        schema: None,
        state_class: None,
        icon: None,
        picture: None,
        mode: None,
        min: None,
        max: None,
        step: None,
        suggested_display_precision: None,
        light_brightness: false,
        light_color_temp: false,
        light_rgb: false,
        light_min_mireds: None,
        light_max_mireds: None,
        light_color_modes: None,
    }
}

impl Default for EntityConfig {
    fn default() -> (c: Self)
        ensures
            c == spec_empty_entity_config(),
    {
        EntityConfig {
            id: "",
            name: None,
            domain: "",
            device_class: None,
            measurement_unit: None,
            schema: None,
            state_class: None,
            icon: None,
            picture: None,
            mode: None,
            min: None,
            max: None,
            step: None,
            suggested_display_precision: None,
            light_brightness: false,
            light_color_temp: false,
            light_rgb: false,
            light_min_mireds: None,
            light_max_mireds: None,
            light_color_modes: None,
        }
    }
}

impl EntityCommonConfig {
    /// `config` with the shared fields of `self` written into it.
    pub open spec fn spec_populate(self, config: EntityConfig) -> EntityConfig {
        EntityConfig { name: self.name, icon: self.icon, picture: self.picture, ..config }
    }

    /// Writes the shared fields into an entity's configuration.
    pub fn populate(&self, config: &mut EntityConfig)
        ensures
            *final(config) == self.spec_populate(*old(config)),
    {
        config.name = self.name;
        config.icon = self.icon;
        config.picture = self.picture;
    }
}

#[derive(Debug, Default, Clone, Copy)]
pub struct ButtonStorage {
    pub timestamp: Option<embassy_time::Instant>,
    pub consumed: bool,
}

#[derive(Debug, Clone, Copy)]
pub struct SwitchCommand {
    pub value: BinaryState,
    pub timestamp: embassy_time::Instant,
}

#[derive(Debug, Clone, Copy)]
pub struct SwitchState {
    pub value: BinaryState,
    pub timestamp: embassy_time::Instant,
}

#[derive(Debug, Default, Clone, Copy)]
pub struct SwitchStorage {
    pub state: Option<SwitchState>,
    pub command: Option<SwitchCommand>,
    pub publish_on_command: bool,
}

#[derive(Debug, Clone, Copy)]
pub struct BinarySensorState {
    pub value: BinaryState,
    pub timestamp: embassy_time::Instant,
}

#[derive(Debug, Default, Clone, Copy)]
pub struct BinarySensorStorage {
    pub state: Option<BinarySensorState>,
}

/// A reading of a numeric sensor, held as the decimal text that is published.
#[derive(Debug)]
pub struct NumericSensorState {
    pub value: String,
    pub timestamp: embassy_time::Instant,
}

#[derive(Debug, Default)]
pub struct NumericSensorStorage {
    pub state: Option<NumericSensorState>,
}

/// The value of a number entity, held as decimal text.
#[derive(Debug)]
pub struct NumberState {
    pub value: String,
    pub timestamp: embassy_time::Instant,
}

/// A value received for a number entity, held as the text that was received.
#[derive(Debug)]
pub struct NumberCommand {
    pub value: String,
    pub timestamp: embassy_time::Instant,
}

#[derive(Debug, Default)]
pub struct NumberStorage {
    pub state: Option<NumberState>,
    pub command: Option<NumberCommand>,
    pub publish_on_command: bool,
}

#[derive(Debug, Default, Clone, Copy)]
pub struct LightStorage {
    pub state: Option<LightState>,
    pub command: Option<LightCommand>,
    pub publish_on_command: bool,
}

/// The stored state of an entity; its variant is the entity's kind.
#[derive(Debug)]
pub enum EntityStorage {
    Button(ButtonStorage),
    Switch(SwitchStorage),
    BinarySensor(BinarySensorStorage),
    NumericSensor(NumericSensorStorage),
    Number(NumberStorage),
    Light(LightStorage),
}

impl EntityStorage {
    pub fn as_button_mut(&mut self) -> (s: &mut ButtonStorage)
        requires
            *old(self) is Button,
        ensures
            *s == old(self)->Button_0,
            *final(self) == EntityStorage::Button(*final(s)),
    {
        match self {
            EntityStorage::Button(storage) => storage,
            _ => vstd::pervasive::unreached(),
        }
    }

    pub fn as_switch_mut(&mut self) -> (s: &mut SwitchStorage)
        requires
            *old(self) is Switch,
        ensures
            *s == old(self)->Switch_0,
            *final(self) == EntityStorage::Switch(*final(s)),
    {
        match self {
            EntityStorage::Switch(storage) => storage,
            _ => vstd::pervasive::unreached(),
        }
    }

    pub fn as_binary_sensor_mut(&mut self) -> (s: &mut BinarySensorStorage)
        requires
            *old(self) is BinarySensor,
        ensures
            *s == old(self)->BinarySensor_0,
            *final(self) == EntityStorage::BinarySensor(*final(s)),
    {
        match self {
            EntityStorage::BinarySensor(storage) => storage,
            _ => vstd::pervasive::unreached(),
        }
    }

    pub fn as_numeric_sensor_mut(&mut self) -> (s: &mut NumericSensorStorage)
        requires
            *old(self) is NumericSensor,
        ensures
            *s == old(self)->NumericSensor_0,
            *final(self) == EntityStorage::NumericSensor(*final(s)),
    {
        match self {
            EntityStorage::NumericSensor(storage) => storage,
            _ => vstd::pervasive::unreached(),
        }
    }

    pub fn as_number_mut(&mut self) -> (s: &mut NumberStorage)
        requires
            *old(self) is Number,
        ensures
            *s == old(self)->Number_0,
            *final(self) == EntityStorage::Number(*final(s)),
    {
        match self {
            EntityStorage::Number(storage) => storage,
            _ => vstd::pervasive::unreached(),
        }
    }

    pub fn as_light_mut(&mut self) -> (s: &mut LightStorage)
        requires
            *old(self) is Light,
        ensures
            *s == old(self)->Light_0,
            *final(self) == EntityStorage::Light(*final(s)),
    {
        match self {
            EntityStorage::Light(storage) => storage,
            _ => vstd::pervasive::unreached(),
        }
    }
}

} // verus!
