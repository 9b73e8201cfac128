use embassy_ha::session::{advance, serve_failure};
use embassy_ha::{DeviceConfig, DeviceState, ServeStep, SessionAction, SessionPhase};

#[test]
fn session_visits_entities_in_order() {
    let mut phase = SessionPhase::Connect;
    let mut seen = Vec::new();
    while phase != SessionPhase::Serve {
        seen.push(phase);
        phase = advance(phase, 2, true).unwrap();
    }
    assert_eq!(
        seen,
        vec![
            SessionPhase::Connect,
            SessionPhase::Announce(0),
            SessionPhase::Subscribe(0),
            SessionPhase::Announce(1),
            SessionPhase::Subscribe(1),
            SessionPhase::GoOnline,
        ]
    );
}

#[test]
fn session_without_entities_goes_online() {
    assert_eq!(advance(SessionPhase::Connect, 0, true).unwrap(), SessionPhase::GoOnline);
    assert_eq!(advance(SessionPhase::GoOnline, 0, true).unwrap(), SessionPhase::Serve);
}

#[test]
fn session_failures_name_their_step() {
    let cases = [
        (SessionPhase::Connect, "mqtt connection failed"),
        (SessionPhase::Announce(0), "mqtt discovery publish failed"),
        (SessionPhase::Subscribe(0), "mqtt subscription to entity command topic failed"),
        (SessionPhase::GoOnline, "mqtt availability publish failed"),
    ];
    for (phase, message) in cases {
        assert_eq!(advance(phase, 1, false).unwrap_err().message(), message);
    }
    assert_eq!(serve_failure(ServeStep::PublishState).message(), "mqtt publish failed");
    assert_eq!(serve_failure(ServeStep::Receive).message(), "mqtt receive failed");
    assert_eq!(serve_failure(ServeStep::ReceiveData).message(), "mqtt receive data failed");
}

#[test]
fn session_actions_carry_will_and_availability() {
    let d = DeviceState::new(DeviceConfig { device_id: "dev", device_name: "", manufacturer: "", model: "" });
    match d.session_action(SessionPhase::Connect) {
        SessionAction::Connect { client_id, will_topic, will_payload } => {
            assert_eq!(client_id, "dev");
            assert_eq!(will_topic.as_str(), "embassy-ha/dev/availability");
            assert_eq!(will_payload, "offline");
        }
        other => panic!("expected a connect, got {:?}", other),
    }
    match d.session_action(SessionPhase::GoOnline) {
        SessionAction::PublishAvailability { topic, payload } => {
            assert_eq!(topic.as_str(), "embassy-ha/dev/availability");
            assert_eq!(payload, "online");
        }
        other => panic!("expected an availability publish, got {:?}", other),
    }
    assert!(matches!(d.session_action(SessionPhase::Announce(3)), SessionAction::PublishDiscovery(3)));
    assert!(matches!(d.session_action(SessionPhase::Subscribe(2)), SessionAction::Subscribe(2)));
    assert!(matches!(d.session_action(SessionPhase::Serve), SessionAction::Serve));
}
