use automation::config::{Module, Resolver, SetupOutcome};
use automation::device_manager::{Capabilities, DeviceEntry, DeviceManager};
use automation::devices::DeviceKind;
use automation::event::{Event, MqttMessage};

fn entry(id: &str, caps: Capabilities, topics: &[&str]) -> DeviceEntry {
    DeviceEntry { id: id.to_string(), capabilities: caps, topics: topics.iter().map(|t| t.to_string()).collect() }
}

const MQTT: Capabilities = Capabilities { mqtt: true, presence: false, darkness: false, notification: false };
const PRESENCE: Capabilities = Capabilities { mqtt: false, presence: true, darkness: true, notification: false };

#[test]
fn add_replaces_and_get_finds() {
    let mut m = DeviceManager::new();
    m.add(entry("a", MQTT, &["x/+"]));
    m.add(entry("b", PRESENCE, &[]));
    m.add(entry("a", PRESENCE, &[]));
    assert_eq!(m.get("a").unwrap().capabilities, PRESENCE);
    assert_eq!(m.get("b").unwrap().capabilities, PRESENCE);
    assert!(m.get("c").is_none());
}

#[test]
fn events_go_to_devices_that_react() {
    let mut m = DeviceManager::new();
    m.add(entry("sensor", MQTT, &["zigbee2mqtt/sensor"]));
    m.add(entry("bridge", PRESENCE, &[]));
    m.add(entry("remote", MQTT, &["zigbee2mqtt/remote", "zigbee2mqtt/other"]));
    assert_eq!(m.handle_event(&Event::Presence(true)), vec!["bridge".to_string()]);
    assert_eq!(m.handle_event(&Event::Darkness(true)), vec!["bridge".to_string()]);
    let msg = || Event::MqttMessage(MqttMessage { topic: "zigbee2mqtt/other".to_string(), payload: vec![] });
    assert_eq!(m.handle_event(&msg()), vec!["sensor".to_string(), "remote".to_string()]);
    assert_eq!(m.handle_event_subscribed(&msg()), vec!["remote".to_string()]);
    assert!(DeviceManager::subscribed(&vec!["a/#".to_string()], "a/b/c"));
    assert!(!DeviceManager::subscribed(&vec!["a/+".to_string()], "a/b/c"));
}

#[test]
fn modules_resolve_breadth_first() {
    // top: [m1 (devices 1, sub m3 with device 3), m2 (setup gives devices 20,21)]
    let m3: Module<&str, u32> = Module { setup: None, devices: vec![3], modules: vec![] };
    let m1 = Module { setup: None, devices: vec![1], modules: vec![m3] };
    let m2 = Module { setup: Some("setup2"), devices: vec![2], modules: vec![] };
    let mut r = Resolver::new(vec![m1, m2]);
    let mut order = Vec::new();
    while let Some((setup, own)) = r.next() {
        let outcome = match setup {
            Some("setup2") => SetupOutcome::Devices(vec![20, 21]),
            _ => SetupOutcome::Nothing,
        };
        order.push(own.clone());
        assert!(r.finish(outcome, own).is_ok());
    }
    assert_eq!(order, vec![vec![1], vec![2], vec![3]]);
    assert_eq!(r.into_devices(), vec![1, 20, 21, 2, 3]);
}

#[test]
fn setup_can_return_a_module_or_fail() {
    let top: Module<u8, u32> = Module { setup: Some(1), devices: vec![], modules: vec![] };
    let mut r = Resolver::new(vec![top]);
    let (setup, own) = r.next().unwrap();
    assert_eq!(setup, Some(1));
    let returned = Module { setup: Some(2), devices: vec![7], modules: vec![] };
    assert!(r.finish(SetupOutcome::Module(returned), own).is_ok());
    let (setup, own) = r.next().unwrap();
    assert_eq!(setup, Some(2));
    assert!(r.finish(SetupOutcome::Unexpected, own).is_err());
    assert!(r.next().is_none());
    assert!(r.into_devices().is_empty());
}

#[test]
fn topic_filter_leaves_other_events_alone() {
    let mut m = DeviceManager::new();
    m.add(entry("bridge", PRESENCE, &[]));
    m.add(entry("sensor", MQTT, &["zigbee2mqtt/sensor"]));
    m.add(entry("lamp", PRESENCE, &["zigbee2mqtt/lamp"]));
    for event in [Event::Presence(false), Event::Darkness(true)] {
        assert_eq!(m.handle_event(&event), m.handle_event_subscribed(&event));
        assert_eq!(m.handle_event(&event), vec!["bridge".to_string(), "lamp".to_string()]);
    }
}

#[test]
fn device_kinds() {
    assert_eq!(DeviceKind::IkeaOutlet.capabilities(), Capabilities { mqtt: true, presence: true, darkness: false, notification: false });
    assert_eq!(DeviceKind::HueBridge.capabilities(), Capabilities { mqtt: false, presence: true, darkness: true, notification: false });
    assert_eq!(DeviceKind::Ntfy.capabilities(), Capabilities { mqtt: false, presence: true, darkness: false, notification: true });
    assert_eq!(DeviceKind::KasaOutlet.capabilities(), Capabilities { mqtt: false, presence: false, darkness: false, notification: false });
    let r = DeviceKind::KasaOutlet.device_ref("plug".to_string());
    assert_eq!((r.id.as_str(), r.on_off, r.timeout), ("plug", true, false));
    let r = DeviceKind::HueGroup.device_ref("lights".to_string());
    assert_eq!((r.on_off, r.timeout), (true, true));
    let r = DeviceKind::Washer.device_ref("washer".to_string());
    assert_eq!((r.on_off, r.timeout), (false, false));
}
