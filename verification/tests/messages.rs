use automation::error::ParseError;
use automation::messages::{
    ActivateMessage, BrightnessMessage, ContactMessage, DarknessMessage, OnOffMessage,
    PresenceMessage, RemoteAction, RemoteMessage,
};
use automation::mqtt;

#[test]
fn on_off_message_roundtrip() {
    assert_eq!(OnOffMessage::new(true).state, "ON");
    assert_eq!(OnOffMessage::new(false).state, "OFF");
    assert!(OnOffMessage::new(true).state());
    assert!(!OnOffMessage::new(false).state());
    assert!(!OnOffMessage { state: "on".to_string() }.state());
    assert!(!OnOffMessage { state: "TOGGLE".to_string() }.state());
}

#[test]
fn accessors() {
    assert!(ActivateMessage { activate: true }.activate());
    assert_eq!(RemoteMessage { action: RemoteAction::BrightnessStop }.action(), RemoteAction::BrightnessStop);
    assert_eq!(BrightnessMessage { illuminance: -5 }.illuminance(), -5);
    assert!(ContactMessage { contact: true }.is_closed());
    assert!(!ContactMessage { contact: false }.is_closed());
}

#[test]
fn presence_and_darkness_are_stamped() {
    let p = PresenceMessage::new(true);
    assert!(p.presence());
    assert!(p.present());
    assert!(p.updated.is_some());
    let d = DarknessMessage::new(false);
    assert!(!d.is_dark());
    assert!(!d.present());
    assert!(d.updated.is_some());
    let fixed = PresenceMessage::with_timestamp(false, 1234);
    assert_eq!(fixed.updated, Some(1234));
    assert!(!fixed.presence());
    assert_eq!(DarknessMessage::with_timestamp(true, 9).updated, Some(9));
}

#[test]
fn mqtt_module_reexports_the_messages() {
    let m: mqtt::PresenceMessage = PresenceMessage::with_timestamp(true, 0);
    assert!(m.present());
    let e = ParseError::InvalidPayload(vec![1, 2]);
    match e {
        ParseError::InvalidPayload(p) => assert_eq!(p, vec![1, 2]),
    }
}

#[test]
fn parse_error_message() {
    let e = ParseError::InvalidPayload(b"on\n\"x\"\\\x00\x01\xff\t\r".to_vec());
    assert_eq!(e.to_message(), "Invalid message payload received: b\"on\\n\\\"x\\\"\\\\\\0\\x01\\xff\\t\\r\"");
    assert_eq!(ParseError::InvalidPayload(vec![]).to_message(), "Invalid message payload received: b\"\"");
}
