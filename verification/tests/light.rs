use embassy_ha::entity_light::apply_light_command;
use embassy_ha::{
    CommandOutcome, CommandPolicy, DeviceConfig, DeviceState, LightColor, LightCommand, LightConfig,
    LightState, PublishStep,
};
use embassy_time::Instant;

fn device() -> DeviceState {
    DeviceState::new(DeviceConfig { device_id: "d", device_name: "", manufacturer: "", model: "" })
}

fn same(a: &LightState, b: &LightState) -> bool {
    a.on == b.on
        && a.brightness == b.brightness
        && a.color_temp == b.color_temp
        && a.color.map(|c| (c.r, c.g, c.b)) == b.color.map(|c| (c.r, c.g, c.b))
}

#[test]
fn light_state_set_is_published_next() {
    let mut d = device();
    let idx = d.create_light("l", LightConfig::default());
    let st = LightState { on: true, brightness: Some(255), color_temp: Some(370), color: None };
    d.light_set(idx, st);
    match d.next_publish(idx) {
        PublishStep::Light(published) => assert!(same(&published, &st)),
        other => panic!("expected a light state, got {:?}", other),
    }
    assert!(matches!(d.next_publish(idx), PublishStep::Idle));
}

#[test]
fn light_reads_back_last_set_state() {
    let mut d = device();
    let idx = d.create_light("l", LightConfig { command_policy: CommandPolicy::Manual, ..Default::default() });
    let a = LightState { on: true, brightness: Some(1), ..Default::default() };
    let b = LightState { on: false, color: Some(LightColor { r: 9, g: 8, b: 7 }), ..Default::default() };
    d.light_set(idx, a);
    d.light_set(idx, b);
    d.queue_publish(idx);
    d.next_publish(idx);
    assert_eq!(d.handle_command(idx, br#"{"state":"ON"}"#, None, LightCommand::from_fields(Some("ON"), None, None, None), Instant::from_ticks(1)), CommandOutcome::Applied);
    d.take_command(idx);
    assert!(same(&d.light_state(idx).unwrap(), &b));
    assert!(same(&d.light_state(idx).unwrap(), &d.light_state(idx).unwrap()));
}

#[test]
fn light_command_is_applied_onto_state() {
    let mut d = device();
    let idx = d.create_light("l", LightConfig::default());
    d.light_set(idx, LightState { on: false, brightness: Some(100), color_temp: Some(300), color: None });
    d.next_publish(idx);
    let command = LightCommand { state: Some(true), brightness: None, color_temp: Some(200), color: None };
    assert_eq!(d.handle_command(idx, b"{}", None, Some(command), Instant::from_ticks(2)), CommandOutcome::Applied);
    let expected = LightState { on: true, brightness: Some(100), color_temp: Some(200), color: None };
    assert!(same(&d.light_state(idx).unwrap(), &expected));
    assert_eq!(d.light_command(idx).unwrap().color_temp, Some(200));
    assert!(d.entity(idx).command);
    match d.next_publish(idx) {
        PublishStep::Light(published) => assert!(same(&published, &expected)),
        other => panic!("expected a light state, got {:?}", other),
    }
}

#[test]
fn manual_light_only_records_command() {
    let mut d = device();
    let idx = d.create_light("l", LightConfig { command_policy: CommandPolicy::Manual, ..Default::default() });
    let command = LightCommand { state: Some(true), ..Default::default() };
    assert_eq!(d.handle_command(idx, b"{}", None, Some(command), Instant::from_ticks(2)), CommandOutcome::Applied);
    assert!(d.light_state(idx).is_none());
    assert_eq!(d.light_command(idx).unwrap().state, Some(true));
    assert!(!d.entity(idx).publish);
    assert!(d.take_command(idx));
}

#[test]
fn light_rejects_non_command() {
    let mut d = device();
    let idx = d.create_light("l", LightConfig::default());
    assert_eq!(d.handle_command(idx, b"ON", None, None, Instant::from_ticks(1)), CommandOutcome::InvalidLightCommand);
    assert!(d.light_command(idx).is_none());
    assert!(!d.entity(idx).command);
}

#[test]
fn light_command_from_fields() {
    let c = LightCommand::from_fields(Some("OFF"), Some(3), None, None).unwrap();
    assert_eq!(c.state, Some(false));
    assert_eq!(c.brightness, Some(3));
    let c = LightCommand::from_fields(None, None, Some(250), Some(LightColor { r: 1, g: 2, b: 3 })).unwrap();
    assert_eq!(c.state, None);
    assert_eq!(c.color.unwrap().g, 2);
    assert!(LightCommand::from_fields(Some("on"), None, None, None).is_none());
}

#[test]
fn apply_light_command_keeps_unset_fields() {
    let off = apply_light_command(None, LightCommand { brightness: Some(5), ..Default::default() });
    assert!(same(&off, &LightState { on: false, brightness: Some(5), color_temp: None, color: None }));
    let st = LightState { on: true, brightness: Some(1), color_temp: Some(2), color: Some(LightColor { r: 3, g: 4, b: 5 }) };
    assert!(same(&apply_light_command(Some(st), LightCommand::default()), &st));
}

#[test]
fn light_on_text() {
    assert_eq!(LightState { on: true, ..Default::default() }.on_str(), "ON");
    assert_eq!(LightState::default().on_str(), "OFF");
}
