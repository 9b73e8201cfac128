use embassy_ha::{
    CommandPolicy, EntityCommonConfig, EntityConfig, LightConfig, SwitchClass, SwitchConfig,
    TemperatureSensorConfig, TemperatureUnit,
};

fn common() -> EntityCommonConfig {
    EntityCommonConfig { name: Some("Name"), icon: Some("mdi:lamp"), picture: None }
}

#[test]
fn temperature_unit_names() {
    assert_eq!(TemperatureUnit::Celcius.as_str(), "°C");
    assert_eq!(TemperatureUnit::Kelvin.as_str(), "K");
    assert_eq!(TemperatureUnit::Fahrenheit.as_str(), "°F");
    assert_eq!(TemperatureUnit::Other("mK").as_str(), "mK");
}

#[test]
fn common_config_populate_sets_shared_fields() {
    let mut c = EntityConfig::default();
    c.id = "x";
    c.domain = "d";
    common().populate(&mut c);
    assert_eq!(c.name, Some("Name"));
    assert_eq!(c.icon, Some("mdi:lamp"));
    assert_eq!(c.picture, None);
    assert_eq!(c.id, "x");
    assert_eq!(c.domain, "d");
}

#[test]
fn temperature_sensor_populate() {
    let mut c = EntityConfig::default();
    c.id = "t";
    let cfg = TemperatureSensorConfig { common: common(), unit: TemperatureUnit::Fahrenheit };
    cfg.populate(&mut c);
    assert_eq!(c.domain, "sensor");
    assert_eq!(c.device_class, Some("temperature"));
    assert_eq!(c.measurement_unit, Some("°F"));
    assert_eq!(c.name, Some("Name"));
    assert_eq!(c.id, "t");
    assert_eq!(c.schema, None);
}

#[test]
fn switch_populate_classes() {
    for (class, expected) in [
        (SwitchClass::Generic, None),
        (SwitchClass::Outlet, Some("outlet")),
        (SwitchClass::Switch, Some("switch")),
    ] {
        let mut c = EntityConfig::default();
        let cfg = SwitchConfig { common: common(), class, publish_on_command: false };
        cfg.populate(&mut c);
        assert_eq!(c.domain, "switch");
        assert_eq!(c.device_class, expected);
        assert_eq!(c.icon, Some("mdi:lamp"));
    }
}

#[test]
fn switch_populate_clears_previous_device_class() {
    let mut c = EntityConfig::default();
    c.device_class = Some("stale");
    SwitchConfig::default().populate(&mut c);
    assert_eq!(c.device_class, None);
}

#[test]
fn light_populate_fields() {
    let mut c = EntityConfig::default();
    let cfg = LightConfig {
        common: common(),
        brightness: true,
        color_temp: false,
        rgb: false,
        min_mireds: Some(153),
        max_mireds: Some(500),
        command_policy: CommandPolicy::Manual,
    };
    cfg.populate(&mut c);
    assert_eq!(c.domain, "light");
    assert_eq!(c.schema, Some("json"));
    assert!(c.light_brightness);
    assert!(!c.light_color_temp);
    assert!(!c.light_rgb);
    assert_eq!(c.light_min_mireds, Some(153));
    assert_eq!(c.light_max_mireds, Some(500));
    assert_eq!(c.light_color_modes, Some(&["brightness"][..]));
}

#[test]
fn light_color_modes_by_features() {
    let cases: [((bool, bool, bool), &[&str]); 8] = [
        ((true, true, true), &["rgb", "color_temp"]),
        ((true, true, false), &["rgb", "color_temp"]),
        ((true, false, true), &["rgb"]),
        ((true, false, false), &["rgb"]),
        ((false, true, true), &["color_temp"]),
        ((false, true, false), &["color_temp"]),
        ((false, false, true), &["brightness"]),
        ((false, false, false), &["onoff"]),
    ];
    for ((rgb, color_temp, brightness), expected) in cases {
        let mut c = EntityConfig::default();
        let cfg = LightConfig { rgb, color_temp, brightness, ..Default::default() };
        cfg.populate(&mut c);
        assert_eq!(c.light_color_modes, Some(expected));
    }
}

#[test]
fn error_keeps_its_message() {
    let e = embassy_ha::Error::new("mqtt publish failed");
    assert_eq!(e.message(), "mqtt publish failed");
}
