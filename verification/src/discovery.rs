//! The discovery records that announce a device and its entities to Home Assistant.
//! They are serialized to JSON outside this library.

use vstd::prelude::*;

use vstd::string::StringSliceAdditionalSpecFns;

use crate::buffer::{topic_buffer_bytes, TopicBuffer};
use crate::constants;
use crate::entity::EntityConfig;

verus! {

/// The device as every one of its entities announces it.
#[derive(Debug)]
pub struct DeviceDiscovery<'a> {
    pub identifiers: Vec<&'a str>,
    pub name: &'a str,
    pub manufacturer: &'a str,
    pub model: &'a str,
}

/// The topics of one entity.
#[derive(Debug)]
pub struct EntityTopics {
    pub discovery: TopicBuffer,
    pub state: TopicBuffer,
    pub command: TopicBuffer,
}

/// The discovery record of one entity.
#[derive(Debug)]
pub struct EntityDiscovery<'a> {
    pub id: &'a str,
    pub name: Option<&'a str>,
    pub device_class: Option<&'a str>,
    pub state_topic: Option<&'a str>,
    pub command_topic: Option<&'a str>,
    pub unit_of_measurement: Option<&'a str>,
    pub schema: Option<&'a str>,
    pub state_class: Option<&'a str>,
    pub icon: Option<&'a str>,
    pub entity_picture: Option<&'a str>,
    pub min: Option<&'a str>,
    pub max: Option<&'a str>,
    pub step: Option<&'a str>,
    pub mode: Option<&'a str>,
    pub suggested_display_precision: Option<u8>,
    pub availability_topic: Option<&'a str>,
    pub payload_available: Option<&'a str>,
    pub payload_not_available: Option<&'a str>,
    pub device: &'a DeviceDiscovery<'a>,
}

/// Whether an announced text is the configured one.
pub open spec fn spec_same_text(announced: Option<&str>, configured: Option<String>) -> bool {
    match configured {
        Some(c) => announced matches Some(a) && a@ == c@,
        None => announced is None,
    }
}

/// The configured text, borrowed.
fn text_of(t: &Option<String>) -> (r: Option<&str>)
    ensures
        spec_same_text(r, *t),
{
    match t {
        Some(s) => Some(s.as_str()),
        None => None,
    }
}

/// Whether `d` announces the entity configured by `config`, with the given topics,
/// availability topic and device record.
pub open spec fn spec_announces(
    d: EntityDiscovery,
    config: EntityConfig,
    topics: EntityTopics,
    availability_topic: &str,
    device: DeviceDiscovery,
) -> bool {
    &&& d.id == config.id
    &&& d.name == config.name
    &&& d.device_class == config.device_class
    &&& d.state_topic matches Some(t) && t.spec_bytes() == topic_buffer_bytes(topics.state)
    &&& d.command_topic matches Some(t) && t.spec_bytes() == topic_buffer_bytes(topics.command)
    &&& d.unit_of_measurement == config.measurement_unit
    &&& d.schema == config.schema
    &&& d.state_class == config.state_class
    &&& d.icon == config.icon
    &&& d.entity_picture == config.picture
    &&& spec_same_text(d.min, config.min)
    &&& spec_same_text(d.max, config.max)
    &&& spec_same_text(d.step, config.step)
    &&& d.mode == config.mode
    &&& d.suggested_display_precision == config.suggested_display_precision
    &&& d.availability_topic == Some(availability_topic)
    &&& d.payload_available == Some(constants::AVAILABLE_PAYLOAD)
    &&& d.payload_not_available == Some(constants::NOT_AVAILABLE_PAYLOAD)
    &&& *d.device == device
}

/// The discovery record of an entity.
pub fn entity_discovery<'a>(
    config: &'a EntityConfig,
    topics: &'a EntityTopics,
    availability_topic: &'a str,
    device: &'a DeviceDiscovery<'a>,
) -> (d: EntityDiscovery<'a>)
    ensures
        spec_announces(d, *config, *topics, availability_topic, *device),
{
    EntityDiscovery {
        id: config.id,
        name: config.name,
        device_class: config.device_class,
        state_topic: Some(topics.state.as_str()),
        command_topic: Some(topics.command.as_str()),
        unit_of_measurement: config.measurement_unit,
        schema: config.schema,
        state_class: config.state_class,
        icon: config.icon,
        entity_picture: config.picture,
        min: text_of(&config.min),
        max: text_of(&config.max),
        step: text_of(&config.step),
        mode: config.mode,
        suggested_display_precision: config.suggested_display_precision,
        availability_topic: Some(availability_topic),
        payload_available: Some(constants::AVAILABLE_PAYLOAD),
        payload_not_available: Some(constants::NOT_AVAILABLE_PAYLOAD),
        device: device,
    }
}

} // verus!
