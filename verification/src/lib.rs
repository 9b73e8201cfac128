//! Home Assistant MQTT device library: entities, their stored state, the topics and
//! discovery records announced for them, and the decisions of the device's MQTT loop.

use vstd::prelude::*;

pub mod constants;

pub mod unit;
pub use unit::{BatteryUnit, EnergyUnit, HumidityUnit, LightUnit, PressureUnit, TemperatureUnit};

pub mod bytes;

pub mod binary_state;
pub use binary_state::{BinaryState, InvalidBinaryState};

pub mod entity;
pub use entity::{
    BinarySensorState, BinarySensorStorage, ButtonStorage, CommandPolicy, EntityCommonConfig,
    EntityConfig, EntityStorage, NumberCommand, NumberState, NumberStorage, NumericSensorState,
    NumericSensorStorage, SwitchCommand, SwitchState, SwitchStorage, LightStorage,
};

pub mod entity_light;
pub use entity_light::{LightColor, LightCommand, LightConfig, LightState};

pub mod entity_button;
pub use entity_button::ButtonConfig;

pub mod entity_binary_sensor;
pub use entity_binary_sensor::BinarySensorConfig;

pub mod entity_number;
pub use entity_number::NumberConfig;

pub mod entity_sensor;
pub use entity_sensor::TemperatureSensorConfig;

pub mod buffer;
pub use buffer::{PublishBuffer, TopicBuffer};

pub mod topic;

pub mod discovery;
pub use discovery::{DeviceDiscovery, EntityDiscovery, EntityTopics};

pub mod session;
pub use session::{ServeStep, SessionAction, SessionPhase};

pub mod device;
pub use device::{CommandOutcome, DeviceConfig, DeviceState, EntityData, PublishStep, TopicError};

pub mod entity_switch;
pub use entity_switch::{SwitchClass, SwitchConfig};

verus! {

/// An error that ends the device's MQTT loop, carrying a static description.
#[derive(Debug)]
pub struct Error(&'static str);

impl Error {
    pub fn new(message: &'static str) -> (e: Self)
        ensures
            e.message_spec() == message,
    {
        Self(message)
    }

    pub closed spec fn message_spec(&self) -> &'static str {
        self.0
    }

    /// The description given when the error was made.
    pub fn message(&self) -> (m: &'static str)
        ensures
            m == self.message_spec(),
    {
        self.0
    }
}

} // verus!
