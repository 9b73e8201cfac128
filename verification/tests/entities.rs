use embassy_ha::discovery::entity_discovery;
use embassy_ha::{
    BinarySensorConfig, BinaryState, ButtonConfig, CommandOutcome, DeviceConfig, DeviceState,
    EntityCommonConfig, EntityStorage, NumberConfig, PublishStep,
};
use embassy_time::Instant;

fn device() -> DeviceState {
    DeviceState::new(DeviceConfig { device_id: "d", device_name: "D", manufacturer: "M", model: "X" })
}

#[test]
fn button_is_created_and_pressed() {
    let mut d = device();
    let idx = d.create_button("b", ButtonConfig { common: EntityCommonConfig { name: Some("B"), ..Default::default() } });
    assert_eq!(d.entity(idx).config.domain, "button");
    assert_eq!(d.entity(idx).config.name, Some("B"));
    assert!(!d.button_take_press(idx));
    assert_eq!(d.handle_command(idx, b"PRESS", None, None, Instant::from_ticks(1)), CommandOutcome::Applied);
    assert!(d.button_take_press(idx));
    assert!(!d.button_take_press(idx));
    assert_eq!(d.handle_command(idx, b"PRESS", None, None, Instant::from_ticks(2)), CommandOutcome::Applied);
    assert!(d.button_take_press(idx));
}

#[test]
fn binary_sensor_is_created_and_set() {
    let mut d = device();
    let idx = d.create_binary_sensor("bs", BinarySensorConfig { common: EntityCommonConfig::default(), class: Some("door") });
    assert_eq!(d.entity(idx).config.domain, "binary_sensor");
    assert_eq!(d.entity(idx).config.device_class, Some("door"));
    assert!(matches!(d.next_publish(idx), PublishStep::Idle));
    d.binary_sensor_set(idx, BinaryState::On, Instant::from_ticks(3));
    match d.next_publish(idx) {
        PublishStep::Payload(p) => assert_eq!(p.as_slice(), b"ON"),
        other => panic!("expected a payload, got {:?}", other),
    }
    d.binary_sensor_set_now(idx, BinaryState::Off);
    match &d.entity(idx).storage {
        EntityStorage::BinarySensor(b) => assert_eq!(b.state.unwrap().value, BinaryState::Off),
        _ => panic!("expected a binary sensor"),
    }
}

#[test]
fn number_is_created_set_and_commanded() {
    let mut d = device();
    let idx = d.create_number(
        "n",
        NumberConfig {
            unit: Some("m"),
            class: Some("distance"),
            min: Some(String::from("0")),
            max: Some(String::from("20")),
            step: Some(String::from("0.5")),
            mode: Some("slider"),
            publish_on_command: false,
            ..Default::default()
        },
    );
    let c = &d.entity(idx).config;
    assert_eq!(c.domain, "number");
    assert_eq!(c.measurement_unit, Some("m"));
    assert_eq!(c.device_class, Some("distance"));
    assert_eq!(c.min.as_deref(), Some("0"));
    assert_eq!(c.step.as_deref(), Some("0.5"));
    assert_eq!(c.mode, Some("slider"));
    assert_eq!(d.number_state(idx), None);
    d.number_set(idx, String::from("4"), Instant::from_ticks(1));
    assert_eq!(d.number_state(idx).as_deref(), Some("4"));
    match d.next_publish(idx) {
        PublishStep::Payload(p) => assert_eq!(p.as_slice(), b"4"),
        other => panic!("expected a payload, got {:?}", other),
    }
    assert_eq!(d.handle_command(idx, b"7", Some(String::from("7")), None, Instant::from_ticks(2)), CommandOutcome::Applied);
    assert_eq!(d.number_command(idx).as_deref(), Some("7"));
    assert_eq!(d.number_state(idx).as_deref(), Some("4"));
    d.number_set_now(idx, String::from("5"));
    assert_eq!(d.number_state(idx).as_deref(), Some("5"));
}

#[test]
fn number_bounds_are_announced() {
    let mut d = device();
    let idx = d.create_number(
        "n",
        NumberConfig { min: Some(String::from("1")), max: Some(String::from("9")), ..Default::default() },
    );
    let topics = d.entity_topics(idx).unwrap();
    let availability = d.availability_topic().unwrap();
    let device = d.device_discovery();
    let record = entity_discovery(&d.entity(idx).config, &topics, availability.as_str(), &device);
    assert_eq!(record.min, Some("1"));
    assert_eq!(record.max, Some("9"));
    assert_eq!(record.step, None);
}

#[test]
fn commands_coalesce_until_taken() {
    let mut d = device();
    let idx = d.create_switch("s", embassy_ha::SwitchConfig::default());
    d.handle_command(idx, b"ON", None, None, Instant::from_ticks(1));
    d.handle_command(idx, b"bad", None, None, Instant::from_ticks(2));
    d.handle_command(idx, b"OFF", None, None, Instant::from_ticks(3));
    assert!(d.take_command(idx));
    assert!(!d.take_command(idx));
    assert_eq!(d.switch_command(idx), Some(BinaryState::Off));
    d.handle_command(idx, b"bad", None, None, Instant::from_ticks(4));
    assert!(!d.take_command(idx));
}
