use embassy_ha::buffer::TOPIC_CAPACITY;
use embassy_ha::topic::{availability_topic, command_topic, discovery_topic, state_topic};

#[test]
fn topic_formats() {
    assert_eq!(discovery_topic("switch", "dev", "sw").unwrap().as_str(), "homeassistant/switch/dev_sw/config");
    assert_eq!(state_topic("dev", "sw").unwrap().as_str(), "embassy-ha/dev/sw/state");
    assert_eq!(command_topic("dev", "sw").unwrap().as_str(), "embassy-ha/dev/sw/command");
    assert_eq!(availability_topic("dev").unwrap().as_str(), "embassy-ha/dev/availability");
}

#[test]
fn topic_capacity_boundary() {
    // "embassy-ha/" + id + "/availability" is 24 bytes plus the id.
    let fits = "a".repeat(TOPIC_CAPACITY - 24);
    let too_long = "a".repeat(TOPIC_CAPACITY - 23);
    assert_eq!(availability_topic(&fits).unwrap().as_str().len(), TOPIC_CAPACITY);
    assert!(availability_topic(&too_long).is_none());
}

#[test]
fn topic_capacity_counts_utf8_bytes() {
    // Each 'é' takes two bytes: 52 of them fill the 104 bytes left by the fixed parts.
    let fits = "é".repeat(52);
    let too_long = "é".repeat(53);
    assert!(availability_topic(&fits).is_some());
    assert!(availability_topic(&too_long).is_none());
}

#[test]
fn command_topic_too_long() {
    let id = "x".repeat(200);
    assert!(command_topic("dev", &id).is_none());
    assert!(state_topic("dev", &id).is_none());
    assert!(discovery_topic("switch", "dev", &id).is_none());
}
