//! Fixed strings of the Home Assistant MQTT discovery protocol used by this library.

use vstd::prelude::*;

verus! {

pub const HA_DOMAIN_SENSOR: &'static str = "sensor";
pub const HA_DOMAIN_SWITCH: &'static str = "switch";
pub const HA_DOMAIN_LIGHT: &'static str = "light";
pub const HA_DOMAIN_BUTTON: &'static str = "button";
pub const HA_DOMAIN_BINARY_SENSOR: &'static str = "binary_sensor";
pub const HA_DOMAIN_NUMBER: &'static str = "number";

pub const HA_DEVICE_CLASS_SENSOR_TEMPERATURE: &'static str = "temperature";
pub const HA_DEVICE_CLASS_SWITCH_OUTLET: &'static str = "outlet";
pub const HA_DEVICE_CLASS_SWITCH_SWITCH: &'static str = "switch";

pub const HA_UNIT_TEMPERATURE_CELSIUS: &'static str = "°C";
pub const HA_UNIT_TEMPERATURE_KELVIN: &'static str = "K";
pub const HA_UNIT_TEMPERATURE_FAHRENHEIT: &'static str = "°F";

pub const HA_SWITCH_STATE_ON: &'static str = "ON";
pub const HA_SWITCH_STATE_OFF: &'static str = "OFF";

pub const HA_BUTTON_PAYLOAD_PRESS: &'static str = "PRESS";

pub const HA_LIGHT_SCHEMA_JSON: &'static str = "json";
pub const HA_COLOR_MODE_RGB: &'static str = "rgb";
pub const HA_COLOR_MODE_COLOR_TEMP: &'static str = "color_temp";
pub const HA_COLOR_MODE_BRIGHTNESS: &'static str = "brightness";
pub const HA_COLOR_MODE_ONOFF: &'static str = "onoff";

/// Payload published on the availability topic while the device is connected.
pub const AVAILABLE_PAYLOAD: &'static str = "online";
/// Payload of the last will: published by the broker once the device is gone.
pub const NOT_AVAILABLE_PAYLOAD: &'static str = "offline";

} // verus!
