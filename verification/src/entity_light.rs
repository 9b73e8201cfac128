//! Lights: their configuration and the state and commands they exchange.

use vstd::prelude::*;
use vstd::string::StringSliceAdditionalSpecFns;

use crate::binary_state::{spec_parse_binary_state, BinaryState};
use crate::constants;
use crate::entity::{CommandPolicy, EntityCommonConfig, EntityConfig};

verus! {

#[derive(Debug, Clone, Copy, Default)]
pub struct LightColor {
    pub r: u8,
    pub g: u8,
    pub b: u8,
}

#[derive(Debug, Clone, Copy, Default)]
pub struct LightState {
    pub on: bool,
    pub brightness: Option<u8>,
    pub color_temp: Option<u16>,
    pub color: Option<LightColor>,
}

#[derive(Debug, Clone, Copy, Default)]
pub struct LightCommand {
    pub state: Option<bool>,
    pub brightness: Option<u8>,
    pub color_temp: Option<u16>,
    pub color: Option<LightColor>,
}

#[derive(Debug, Default, Clone, Copy)]
pub struct LightConfig {
    pub common: EntityCommonConfig,
    pub brightness: bool,
    pub color_temp: bool,
    pub rgb: bool,
    pub min_mireds: Option<u16>,
    pub max_mireds: Option<u16>,
    pub command_policy: CommandPolicy,
}

/// The state of a light with nothing set: off, with no brightness, color temperature or color.
pub open spec fn spec_light_state_off() -> LightState {
    LightState { on: false, brightness: None, color_temp: None, color: None }
}

/// The state that a command gives a light in `state` (or in the off state when it has
/// none): each field that the command carries replaces the light's, the others stay.
pub open spec fn spec_apply_light_command(state: Option<LightState>, command: LightCommand) -> LightState {
    let current = match state {
        Some(s) => s,
        None => spec_light_state_off(),
    };
    LightState {
        on: match command.state {
            Some(on) => on,
            None => current.on,
        },
        brightness: match command.brightness {
            Some(b) => Some(b),
            None => current.brightness,
        },
        color_temp: match command.color_temp {
            Some(t) => Some(t),
            None => current.color_temp,
        },
        color: match command.color {
            Some(c) => Some(c),
            None => current.color,
        },
    }
}

/// Applies a command to a light's state (the off state when it has none).
pub fn apply_light_command(state: Option<LightState>, command: LightCommand) -> (r: LightState)
    ensures
        r == spec_apply_light_command(state, command),
        command.state matches Some(on) ==> r.on == on,
        command.state is None ==> r.on == (state matches Some(s) && s.on),
        command.brightness is Some ==> r.brightness == command.brightness,
        command.brightness is None ==> r.brightness == (match state {
            Some(s) => s.brightness,
            None => None,
        }),
        command.color_temp is Some ==> r.color_temp == command.color_temp,
        command.color_temp is None ==> r.color_temp == (match state {
            Some(s) => s.color_temp,
            None => None,
        }),
        command.color is Some ==> r.color == command.color,
        command.color is None ==> r.color == (match state {
            Some(s) => s.color,
            None => None,
        }),
{
    let current = match state {
        Some(s) => s,
        None => LightState { on: false, brightness: None, color_temp: None, color: None },
    };
    LightState {
        on: match command.state {
            Some(on) => on,
            None => current.on,
        },
        brightness: match command.brightness {
            Some(b) => Some(b),
            None => current.brightness,
        },
        color_temp: match command.color_temp {
            Some(t) => Some(t),
            None => current.color_temp,
        },
        color: match command.color {
            Some(c) => Some(c),
            None => current.color,
        },
    }
}

/// A command sets each field that it carries, whatever the light's current value, and
/// leaves every other field as the light had it (a light with no state counts as off, with
/// no brightness, color temperature or color).
pub proof fn lemma_light_command_fields(state: Option<LightState>, command: LightCommand)
    ensures
        ({
            let r = spec_apply_light_command(state, command);
            &&& command.state matches Some(on) ==> r.on == on
            &&& command.state is None ==> r.on == (state matches Some(s) && s.on)
            &&& command.brightness is Some ==> r.brightness == command.brightness
            &&& command.brightness is None ==> r.brightness == (match state {
                Some(s) => s.brightness,
                None => None,
            })
            &&& command.color_temp is Some ==> r.color_temp == command.color_temp
            &&& command.color_temp is None ==> r.color_temp == (match state {
                Some(s) => s.color_temp,
                None => None,
            })
            &&& command.color is Some ==> r.color == command.color
            &&& command.color is None ==> r.color == (match state {
                Some(s) => s.color,
                None => None,
            })
        }),
{
}

/// The name of the on/off part of a light's state, as the JSON schema carries it.
pub open spec fn spec_light_on_str(on: bool) -> &'static str {
    if on {
        constants::HA_SWITCH_STATE_ON
    } else {
        constants::HA_SWITCH_STATE_OFF
    }
}

impl LightState {
    /// "ON" when the light is on, "OFF" otherwise.
    pub fn on_str(&self) -> (s: &'static str)
        ensures
            s == spec_light_on_str(self.on),
    {
        if self.on {
            constants::HA_SWITCH_STATE_ON
        } else {
            constants::HA_SWITCH_STATE_OFF
        }
    }
}

impl LightCommand {
    /// A command from the fields of a received JSON command; the on/off part, when
    /// present, must be "ON" or "OFF", else there is no command.
    pub fn from_fields(
        state: Option<&str>,
        brightness: Option<u8>,
        color_temp: Option<u16>,
        color: Option<LightColor>,
    ) -> (r: Option<LightCommand>)
        ensures
            match state {
                None => r == Some(LightCommand { state: None, brightness, color_temp, color }),
                Some(s) => match spec_parse_binary_state(s.spec_bytes()) {
                    Some(v) => r == Some(LightCommand { state: Some(v == BinaryState::On), brightness, color_temp, color }),
                    None => r is None,
                },
            },
    {
        let on = match state {
            None => None,
            Some(s) => match BinaryState::parse(s) {
                Ok(v) => Some(v == BinaryState::On),
                Err(_) => return None,
            },
        };
        Some(LightCommand { state: on, brightness, color_temp, color })
    }
}

/// The color modes that a light announces, from the features it has.
pub open spec fn spec_light_color_modes(rgb: bool, color_temp: bool, brightness: bool) -> Seq<&'static str> {
    if rgb && color_temp {
        seq![constants::HA_COLOR_MODE_RGB, constants::HA_COLOR_MODE_COLOR_TEMP]
    } else if rgb {
        seq![constants::HA_COLOR_MODE_RGB]
    } else if color_temp {
        seq![constants::HA_COLOR_MODE_COLOR_TEMP]
    } else if brightness {
        seq![constants::HA_COLOR_MODE_BRIGHTNESS]
    } else {
        seq![constants::HA_COLOR_MODE_ONOFF]
    }
}

impl LightConfig {
    /// `config` as a light with this configuration announces it.
    pub open spec fn spec_populate(self, config: EntityConfig) -> EntityConfig {
        EntityConfig {
            domain: constants::HA_DOMAIN_LIGHT,
            schema: Some(constants::HA_LIGHT_SCHEMA_JSON),
            light_brightness: self.brightness,
            light_color_temp: self.color_temp,
            light_rgb: self.rgb,
            light_min_mireds: self.min_mireds,
            light_max_mireds: self.max_mireds,
            ..self.common.spec_populate(config)
        }
    }

    /// Writes the light's announcement into an entity's configuration.
    pub fn populate(&self, config: &mut EntityConfig)
        ensures
            *final(config) == (EntityConfig {
                light_color_modes: final(config).light_color_modes,
                ..self.spec_populate(*old(config))
            }),
            final(config).light_color_modes matches Some(modes)
                && modes@ == spec_light_color_modes(self.rgb, self.color_temp, self.brightness),
    {
        self.common.populate(config);
        config.domain = constants::HA_DOMAIN_LIGHT;
        config.schema = Some(constants::HA_LIGHT_SCHEMA_JSON);
        config.light_brightness = self.brightness;
        config.light_color_temp = self.color_temp;
        config.light_rgb = self.rgb;
        config.light_min_mireds = self.min_mireds;
        config.light_max_mireds = self.max_mireds;
        let modes: &'static [&'static str] = if self.rgb && self.color_temp {
            &[constants::HA_COLOR_MODE_RGB, constants::HA_COLOR_MODE_COLOR_TEMP]
        } else if self.rgb {
            &[constants::HA_COLOR_MODE_RGB]
        } else if self.color_temp {
            &[constants::HA_COLOR_MODE_COLOR_TEMP]
        } else if self.brightness {
            &[constants::HA_COLOR_MODE_BRIGHTNESS]
        } else {
            &[constants::HA_COLOR_MODE_ONOFF]
        };
        config.light_color_modes = Some(modes);
    }
}

} // verus!
