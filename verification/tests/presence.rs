use automation::config::MqttDeviceConfig;
use automation::devices::presence::{Presence, PresenceConfig};
use automation::error::{ParseError, PresenceError};
use automation::event::Event;
use automation::messages::PresenceMessage;

fn presence() -> Presence {
    Presence::new(PresenceConfig { mqtt: MqttDeviceConfig { topic: "automation/presence/+".to_string() } })
}

fn report(state: bool) -> Result<PresenceMessage, ParseError> {
    Ok(PresenceMessage::with_timestamp(state, 0))
}

fn presence_event(e: Option<Event>) -> Option<bool> {
    match e {
        None => None,
        Some(Event::Presence(p)) => Some(p),
        Some(_) => panic!("unexpected event"),
    }
}

#[test]
fn any_present_device_makes_the_house_present() {
    let mut p = presence();
    assert_eq!(p.get_id(), "presence");
    let e = p.on_mqtt("automation/presence/phone", b"{\"state\":true}", report(true));
    assert_eq!(presence_event(e), Some(true));
    // a second device arriving changes nothing
    let e = p.on_mqtt("automation/presence/laptop", b"{\"state\":true}", report(true));
    assert_eq!(presence_event(e), None);
    // one leaving still leaves somebody
    let e = p.on_mqtt("automation/presence/phone", b"{\"state\":false}", report(false));
    assert_eq!(presence_event(e), None);
    // the last one removed empties the house
    let e = p.on_mqtt("automation/presence/laptop", b"", Err(ParseError::InvalidPayload(vec![])));
    assert_eq!(presence_event(e), Some(false));
}

#[test]
fn other_topics_and_bad_payloads_are_ignored() {
    let mut p = presence();
    let e = p.on_mqtt("automation/other/phone", b"{\"state\":true}", report(true));
    assert_eq!(presence_event(e), None);
    let e = p.on_mqtt("automation/presence/phone", b"garbage", Err(ParseError::InvalidPayload(b"garbage".to_vec())));
    assert_eq!(presence_event(e), None);
    let e = p.on_mqtt("automation/presence/phone", b"{\"state\":true}", report(true));
    assert_eq!(presence_event(e), Some(true));
}

#[test]
fn checked_refuses_what_cannot_be_cut() {
    let mut p = Presence::new(PresenceConfig { mqtt: MqttDeviceConfig { topic: "a/#".to_string() } });
    // "a" matches "a/#" but is shorter than the wildcard offset
    assert!(p.on_mqtt_checked("a", b"{}", report(true)).is_none());
    let r = p.on_mqtt_checked("a/phone", b"{}", report(true));
    assert!(matches!(r, Some(Some(Event::Presence(true)))));
}

#[test]
fn create_needs_a_wildcard_topic() {
    let p = Presence::create(PresenceConfig { mqtt: MqttDeviceConfig { topic: "automation/presence".to_string() } });
    match p {
        Err(PresenceError::MissingWildcard(w)) => {
            assert_eq!(w.to_message(), "Topic 'automation/presence' is expected to be a wildcard topic")
        }
        _ => panic!("expected a missing wildcard"),
    }
    let p = Presence::create(PresenceConfig { mqtt: MqttDeviceConfig { topic: "automation/presence/#".to_string() } });
    assert!(p.is_ok());
    let p = Presence::create(PresenceConfig { mqtt: MqttDeviceConfig { topic: "automation/+/phone".to_string() } });
    assert_eq!(p.ok().unwrap().get_id(), "presence");
}
