use embassy_ha::device::{COMMAND_PAYLOAD_CAPACITY, ENTITY_LIMIT};
use embassy_ha::discovery::entity_discovery;
use embassy_ha::{
    BinaryState, ButtonStorage, CommandOutcome, CommandPolicy, DeviceConfig, DeviceState,
    EntityCommonConfig, EntityConfig, EntityStorage, LightConfig, LightState, NumberStorage,
    PublishStep, SwitchClass, SwitchConfig, TemperatureSensorConfig, TemperatureUnit, TopicError,
};
use embassy_time::Instant;

fn device() -> DeviceState {
    DeviceState::new(DeviceConfig {
        device_id: "dev",
        device_name: "Device",
        manufacturer: "Maker",
        model: "M1",
    })
}

fn switch_config(publish_on_command: bool) -> SwitchConfig {
    SwitchConfig { common: EntityCommonConfig::default(), class: SwitchClass::Outlet, publish_on_command }
}

fn t(ticks: u64) -> Instant {
    Instant::from_ticks(ticks)
}

fn payload(step: PublishStep) -> Option<String> {
    match step {
        PublishStep::Payload(p) => Some(String::from_utf8(p.as_slice().to_vec()).unwrap()),
        _ => None,
    }
}

#[test]
fn new_device_is_empty() {
    let d = device();
    assert_eq!(d.len(), 0);
    assert!(!d.is_full());
    assert_eq!(d.config().device_id, "dev");
}

#[test]
fn entities_are_indexed_in_creation_order_up_to_the_limit() {
    let mut d = device();
    for i in 0..ENTITY_LIMIT {
        assert!(!d.is_full());
        let idx = d.create_switch("sw", switch_config(false));
        assert_eq!(idx, i);
    }
    assert!(d.is_full());
    assert_eq!(d.len(), 16);
}

#[test]
fn created_switch_is_configured() {
    let mut d = device();
    let idx = d.create_switch("sw", switch_config(true));
    let e = d.entity(idx);
    assert_eq!(e.config.id, "sw");
    assert_eq!(e.config.domain, "switch");
    assert_eq!(e.config.device_class, Some("outlet"));
    assert!(!e.publish);
    assert!(!e.command);
    match &e.storage {
        EntityStorage::Switch(s) => {
            assert!(s.publish_on_command);
            assert!(s.state.is_none());
            assert!(s.command.is_none());
        }
        _ => panic!("expected a switch"),
    }
}

#[test]
fn created_light_takes_command_policy() {
    let mut d = device();
    let a = d.create_light("a", LightConfig { command_policy: CommandPolicy::PublishState, ..Default::default() });
    let b = d.create_light("b", LightConfig { command_policy: CommandPolicy::Manual, rgb: true, ..Default::default() });
    match (&d.entity(a).storage, &d.entity(b).storage) {
        (EntityStorage::Light(x), EntityStorage::Light(y)) => {
            assert!(x.publish_on_command);
            assert!(!y.publish_on_command);
        }
        _ => panic!("expected lights"),
    }
    assert_eq!(d.entity(b).config.light_color_modes, Some(&["rgb"][..]));
    assert_eq!(d.entity(a).config.domain, "light");
}

#[test]
fn created_temperature_sensor_is_configured() {
    let mut d = device();
    let idx = d.create_temperature_sensor(
        "temp",
        TemperatureSensorConfig { common: EntityCommonConfig::default(), unit: TemperatureUnit::Kelvin },
    );
    let e = d.entity(idx);
    assert_eq!(e.config.measurement_unit, Some("K"));
    assert_eq!(e.config.device_class, Some("temperature"));
    assert!(matches!(e.storage, EntityStorage::NumericSensor(_)));
}

#[test]
fn switch_command_with_publish_on_command_is_echoed() {
    let mut d = device();
    let idx = d.create_switch("sw", switch_config(true));
    assert_eq!(d.handle_command(idx, b"ON", None, None, t(5)), CommandOutcome::Applied);
    assert_eq!(d.switch_command(idx), Some(BinaryState::On));
    assert_eq!(d.switch_state(idx), Some(BinaryState::On));
    assert!(d.entity(idx).publish);
    assert_eq!(payload(d.next_publish(idx)).as_deref(), Some("ON"));
    assert!(matches!(d.next_publish(idx), PublishStep::Idle));
}

#[test]
fn switch_command_without_publish_on_command_keeps_state() {
    let mut d = device();
    let idx = d.create_switch("sw", switch_config(false));
    d.switch_set(idx, BinaryState::Off, t(1));
    assert!(matches!(d.next_publish(idx), PublishStep::Payload(_)));
    assert_eq!(d.handle_command(idx, b"ON", None, None, t(2)), CommandOutcome::Applied);
    assert_eq!(d.switch_command(idx), Some(BinaryState::On));
    assert_eq!(d.switch_state(idx), Some(BinaryState::Off));
    assert!(!d.entity(idx).publish);
    assert!(d.entity(idx).command);
}

#[test]
fn switch_rejects_unknown_payload() {
    let mut d = device();
    let idx = d.create_switch("sw", switch_config(true));
    assert_eq!(d.handle_command(idx, b"TOGGLE", None, None, t(1)), CommandOutcome::InvalidSwitchPayload);
    assert_eq!(d.switch_command(idx), None);
    assert!(!d.entity(idx).command);
    assert!(!d.entity(idx).publish);
}

#[test]
fn command_that_is_not_utf8_is_ignored() {
    let mut d = device();
    let idx = d.create_switch("sw", switch_config(true));
    assert_eq!(d.handle_command(idx, &[0x4f, 0xff], None, None, t(1)), CommandOutcome::InvalidUtf8);
    assert!(!d.entity(idx).command);
}

#[test]
fn button_press_is_recorded() {
    let mut d = device();
    let idx = d.create_entity(
        EntityConfig { id: "b", domain: "button", ..Default::default() },
        EntityStorage::Button(ButtonStorage { timestamp: None, consumed: true }),
    );
    assert_eq!(d.handle_command(idx, b"PRESS", None, None, t(9)), CommandOutcome::Applied);
    match &d.entity(idx).storage {
        EntityStorage::Button(b) => {
            assert!(!b.consumed);
            assert_eq!(b.timestamp, Some(t(9)));
        }
        _ => panic!("expected a button"),
    }
    assert!(d.entity(idx).command);
    assert!(!d.entity(idx).publish);
}

#[test]
fn button_rejects_other_payload() {
    let mut d = device();
    let idx = d.create_entity(
        EntityConfig { id: "b", ..Default::default() },
        EntityStorage::Button(ButtonStorage { timestamp: None, consumed: true }),
    );
    assert_eq!(d.handle_command(idx, b"press", None, None, t(1)), CommandOutcome::UnexpectedButtonPayload);
    match &d.entity(idx).storage {
        EntityStorage::Button(b) => assert!(b.consumed && b.timestamp.is_none()),
        _ => panic!("expected a button"),
    }
}

#[test]
fn number_command_is_stored_as_its_value_text() {
    let mut d = device();
    let idx = d.create_entity(
        EntityConfig { id: "n", ..Default::default() },
        EntityStorage::Number(NumberStorage { state: None, command: None, publish_on_command: true }),
    );
    assert_eq!(d.handle_command(idx, b"2.50", Some(String::from("2.5")), None, t(3)), CommandOutcome::Applied);
    match &d.entity(idx).storage {
        EntityStorage::Number(n) => {
            assert_eq!(n.command.as_ref().unwrap().value, "2.5");
            assert_eq!(n.state.as_ref().unwrap().value, "2.5");
        }
        _ => panic!("expected a number"),
    }
    assert_eq!(payload(d.next_publish(idx)).as_deref(), Some("2.5"));
}

#[test]
fn number_rejects_non_number() {
    let mut d = device();
    let idx = d.create_entity(
        EntityConfig { id: "n", ..Default::default() },
        EntityStorage::Number(NumberStorage::default()),
    );
    assert_eq!(d.handle_command(idx, b"abc", None, None, t(3)), CommandOutcome::InvalidNumber);
    assert!(!d.entity(idx).command);
}

#[test]
fn entities_without_commands_ignore_them() {
    let mut d = device();
    let sensor = d.create_temperature_sensor("t", TemperatureSensorConfig::default());
    let bs = d.create_binary_sensor("bs", embassy_ha::BinarySensorConfig::default());
    assert_eq!(d.handle_command(sensor, b"1.0", Some(String::from("1")), None, t(1)), CommandOutcome::UnsupportedEntity);
    assert_eq!(d.handle_command(bs, b"ON", None, None, t(1)), CommandOutcome::UnsupportedEntity);
    assert!(!d.entity(sensor).command);
    assert!(!d.entity(bs).command);
}

#[test]
fn command_is_taken_once() {
    let mut d = device();
    let idx = d.create_switch("sw", switch_config(false));
    assert!(!d.take_command(idx));
    d.handle_command(idx, b"OFF", None, None, t(1));
    assert!(d.take_command(idx));
    assert!(!d.take_command(idx));
    assert_eq!(d.switch_command(idx), Some(BinaryState::Off));
}

#[test]
fn toggle_flips_last_command() {
    let mut d = device();
    let idx = d.create_switch("sw", switch_config(false));
    assert_eq!(d.switch_toggle(idx, t(1)), BinaryState::On);
    assert_eq!(d.switch_state(idx), Some(BinaryState::On));
    assert!(d.entity(idx).publish);
    d.handle_command(idx, b"ON", None, None, t(2));
    assert_eq!(d.switch_toggle(idx, t(3)), BinaryState::Off);
    assert_eq!(d.switch_state(idx), Some(BinaryState::Off));
    assert_eq!(d.switch_command(idx), Some(BinaryState::On));
}

#[test]
fn toggle_without_new_command_repeats() {
    let mut d = device();
    let idx = d.create_switch("sw", switch_config(false));
    d.switch_set(idx, BinaryState::On, t(1));
    assert_eq!(d.switch_toggle(idx, t(2)), BinaryState::On);
    assert_eq!(d.switch_toggle(idx, t(3)), BinaryState::On);
    d.handle_command(idx, b"OFF", None, None, t(4));
    assert_eq!(d.switch_toggle(idx, t(5)), BinaryState::On);
    d.handle_command(idx, b"ON", None, None, t(6));
    assert_eq!(d.switch_toggle(idx, t(7)), BinaryState::Off);
}

#[test]
fn switch_set_is_published_next() {
    let mut d = device();
    let idx = d.create_switch("sw", switch_config(false));
    assert!(matches!(d.next_publish(idx), PublishStep::Idle));
    d.switch_set(idx, BinaryState::On, t(4));
    assert_eq!(payload(d.next_publish(idx)).as_deref(), Some("ON"));
    assert!(matches!(d.next_publish(idx), PublishStep::Idle));
}

#[test]
fn numeric_reading_is_published_next() {
    let mut d = device();
    let idx = d.create_temperature_sensor("t", TemperatureSensorConfig::default());
    d.numeric_sensor_publish(idx, String::from("21.5"), t(1));
    assert_eq!(payload(d.next_publish(idx)).as_deref(), Some("21.5"));
}

#[test]
fn publish_without_state_is_unsupported() {
    let mut d = device();
    let sw = d.create_switch("sw", switch_config(false));
    let light = d.create_light("l", LightConfig::default());
    d.queue_publish(sw);
    assert!(matches!(d.next_publish(sw), PublishStep::Unsupported));
    assert!(!d.entity(sw).publish);
    d.queue_publish(light);
    assert!(matches!(d.next_publish(light), PublishStep::Unsupported));
}

#[test]
fn binary_sensor_state_is_published() {
    let mut d = device();
    let idx = d.create_entity(
        EntityConfig { id: "bs", ..Default::default() },
        EntityStorage::BinarySensor(embassy_ha::BinarySensorStorage {
            state: Some(embassy_ha::BinarySensorState { value: BinaryState::Off, timestamp: t(1) }),
        }),
    );
    d.queue_publish(idx);
    assert_eq!(payload(d.next_publish(idx)).as_deref(), Some("OFF"));
}

#[test]
fn command_topic_routes_to_entity() {
    let mut d = device();
    let a = d.create_switch("a", switch_config(false));
    let b = d.create_switch("b", switch_config(false));
    assert_eq!(d.command_target("embassy-ha/dev/a/command"), Some(a));
    assert_eq!(d.command_target("embassy-ha/dev/b/command"), Some(b));
    assert_eq!(d.command_target("embassy-ha/dev/b/state"), None);
    assert_eq!(d.command_target("embassy-ha/other/b/command"), None);
}

#[test]
fn command_topic_goes_to_first_entity_with_id() {
    let mut d = device();
    let first = d.create_switch("same", switch_config(false));
    let _second = d.create_switch("same", switch_config(false));
    assert_eq!(d.command_target("embassy-ha/dev/same/command"), Some(first));
}

#[test]
fn payload_length_limit() {
    assert!(DeviceState::accepts_payload_len(0));
    assert!(DeviceState::accepts_payload_len(COMMAND_PAYLOAD_CAPACITY));
    assert!(!DeviceState::accepts_payload_len(COMMAND_PAYLOAD_CAPACITY + 1));
}

#[test]
fn entity_topics_and_discovery_record() {
    let mut d = device();
    let idx = d.create_switch(
        "sw",
        SwitchConfig {
            common: EntityCommonConfig { name: Some("Switch"), icon: None, picture: Some("p.png") },
            class: SwitchClass::Switch,
            publish_on_command: false,
        },
    );
    let topics = d.entity_topics(idx).unwrap();
    assert_eq!(topics.discovery.as_str(), "homeassistant/switch/dev_sw/config");
    assert_eq!(topics.state.as_str(), "embassy-ha/dev/sw/state");
    assert_eq!(topics.command.as_str(), "embassy-ha/dev/sw/command");
    let availability = d.availability_topic().unwrap();
    assert_eq!(availability.as_str(), "embassy-ha/dev/availability");
    let device = d.device_discovery();
    assert_eq!(device.identifiers, vec!["dev"]);
    assert_eq!(device.name, "Device");
    assert_eq!(device.manufacturer, "Maker");
    assert_eq!(device.model, "M1");
    let record = entity_discovery(&d.entity(idx).config, &topics, availability.as_str(), &device);
    assert_eq!(record.id, "sw");
    assert_eq!(record.name, Some("Switch"));
    assert_eq!(record.device_class, Some("switch"));
    assert_eq!(record.state_topic, Some("embassy-ha/dev/sw/state"));
    assert_eq!(record.command_topic, Some("embassy-ha/dev/sw/command"));
    assert_eq!(record.entity_picture, Some("p.png"));
    assert_eq!(record.unit_of_measurement, None);
    assert_eq!(record.availability_topic, Some("embassy-ha/dev/availability"));
    assert_eq!(record.payload_available, Some("online"));
    assert_eq!(record.payload_not_available, Some("offline"));
    assert_eq!(record.device.model, "M1");
}

#[test]
fn entity_topics_report_first_too_long() {
    let long: &'static str = Box::leak("x".repeat(120).into_boxed_str());
    let mut d = device();
    let idx = d.create_switch(long, switch_config(false));
    assert_eq!(d.entity_topics(idx).err(), Some(TopicError::DiscoveryTopicTooLong));

}

#[test]
fn device_availability_topic_too_long() {
    let long: &'static str = Box::leak("d".repeat(105).into_boxed_str());
    let d = DeviceState::new(DeviceConfig { device_id: long, device_name: "", manufacturer: "", model: "" });
    assert!(d.availability_topic().is_none());
}

#[test]
fn now_variants_use_current_time() {
    let mut d = device();
    let sw = d.create_switch("sw", switch_config(true));
    d.switch_set_now(sw, BinaryState::On);
    assert_eq!(d.switch_state(sw), Some(BinaryState::On));
    assert_eq!(d.switch_toggle_now(sw), BinaryState::On);
    assert_eq!(d.handle_command_now(sw, b"ON", None, None), CommandOutcome::Applied);
    assert_eq!(d.switch_state(sw), Some(BinaryState::On));
    let temp = d.create_temperature_sensor("t", TemperatureSensorConfig::default());
    d.numeric_sensor_publish_now(temp, String::from("1"));
    assert_eq!(payload(d.next_publish(temp)).as_deref(), Some("1"));
}

#[test]
fn payload_that_does_not_fit_the_publish_buffer() {
    let mut d = device();
    let idx = d.create_temperature_sensor("t", TemperatureSensorConfig::default());
    d.numeric_sensor_publish(idx, "9".repeat(embassy_ha::buffer::PUBLISH_CAPACITY), t(1));
    assert_eq!(payload(d.next_publish(idx)).map(|p| p.len()), Some(embassy_ha::buffer::PUBLISH_CAPACITY));
    d.numeric_sensor_publish(idx, "9".repeat(embassy_ha::buffer::PUBLISH_CAPACITY + 1), t(2));
    assert!(matches!(d.next_publish(idx), PublishStep::TooLarge));
    assert!(!d.entity(idx).publish);
}
