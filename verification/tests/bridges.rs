use automation::config::{InfoConfig, MqttDeviceConfig};
use automation::devices::audio_setup::{AudioCommand, AudioSetup, Config as AudioConfig};
use automation::devices::debug_bridge::{DebugBridge, DebugBridgeConfig};
use automation::devices::hue_bridge::{Flag, FlagIDs, HueBridge, HueBridgeConfig};
use automation::devices::hue_light::{HueGroupConfig, HueRequest, Timeout};
use automation::devices::wake_on_lan::{default_broadcast_ip, WakeOnLAN, WakeOnLANConfig};
use automation::devices::DeviceRef;
use automation::error::{DeviceConfigError, ParseError};
use automation::event::{OnDarkness, OnPresence};
use automation::google_home::errors::{DeviceError, ErrorCode};
use automation::google_home::types::Type;
use automation::messages::{ActivateMessage, RemoteAction, RemoteMessage};
use automation::traits::Timeout as _;

fn dev(id: &str, on_off: bool) -> DeviceRef {
    DeviceRef { id: id.to_string(), on_off, timeout: false }
}

fn audio() -> AudioSetup {
    AudioSetup::create(AudioConfig {
        identifier: "living_audio".to_string(),
        mqtt: MqttDeviceConfig { topic: "zigbee2mqtt/remote".to_string() },
        mixer: dev("mixer", true),
        speakers: dev("speakers", true),
    })
    .ok()
    .unwrap()
}

fn remote(action: RemoteAction) -> Result<RemoteMessage, ParseError> {
    Ok(RemoteMessage { action })
}

#[test]
fn audio_needs_switchable_devices() {
    let r = AudioSetup::create(AudioConfig {
        identifier: "a".to_string(),
        mqtt: MqttDeviceConfig { topic: "t".to_string() },
        mixer: dev("mixer", true),
        speakers: dev("speakers", false),
    });
    match r {
        Err(DeviceConfigError::MissingTrait(id, t)) => {
            assert_eq!(id, "speakers");
            assert_eq!(t, "OnOff");
        }
        _ => panic!("expected a missing trait"),
    }
}

#[test]
fn audio_remote() {
    let a = audio();
    assert_eq!(a.get_id(), "living_audio");
    let t = "zigbee2mqtt/remote";
    assert_eq!(
        a.on_mqtt(t, remote(RemoteAction::On), true, true),
        vec![AudioCommand::SetSpeakers(false), AudioCommand::SetMixer(false)]
    );
    assert_eq!(
        a.on_mqtt(t, remote(RemoteAction::On), false, false),
        vec![AudioCommand::SetSpeakers(true), AudioCommand::SetMixer(true)]
    );
    assert_eq!(a.on_mqtt(t, remote(RemoteAction::BrightnessMoveUp), false, false), vec![AudioCommand::SetMixer(true)]);
    assert_eq!(a.on_mqtt(t, remote(RemoteAction::BrightnessMoveUp), true, true), vec![AudioCommand::SetSpeakers(false)]);
    assert_eq!(a.on_mqtt(t, remote(RemoteAction::BrightnessMoveUp), true, false), vec![AudioCommand::SetSpeakers(true)]);
    assert!(a.on_mqtt(t, remote(RemoteAction::BrightnessStop), true, true).is_empty());
    assert!(a.on_mqtt(t, remote(RemoteAction::Off), true, true).is_empty());
    assert!(a.on_mqtt("zigbee2mqtt/other", remote(RemoteAction::On), true, true).is_empty());
}

#[test]
fn audio_reads_states_only_for_its_own_switching_actions() {
    let a = audio();
    let t = "zigbee2mqtt/remote";
    assert!(a.needs_states(t, &remote(RemoteAction::On)));
    assert!(a.needs_states(t, &remote(RemoteAction::BrightnessMoveUp)));
    assert!(!a.needs_states(t, &remote(RemoteAction::BrightnessStop)));
    assert!(!a.needs_states("zigbee2mqtt/other", &remote(RemoteAction::On)));
    assert!(!a.needs_states(t, &Err(ParseError::InvalidPayload(b"{}".to_vec()))));
}

#[test]
fn audio_off_when_leaving() {
    let mut a = audio();
    assert_eq!(a.on_presence(false), vec![AudioCommand::SetSpeakers(false), AudioCommand::SetMixer(false)]);
    assert!(a.on_presence(true).is_empty());
}

fn hue_group() -> automation::devices::hue_light::HueGroup {
    HueGroupConfig {
        ip: [10, 0, 0, 146],
        login: "secret".to_string(),
        group_id: 3,
        timer_id: 1,
        scene_id: "aBc".to_string(),
        remotes: vec![MqttDeviceConfig { topic: "zigbee2mqtt/remote".to_string() }],
    }
    .create("hallway")
}

#[test]
fn hue_group_urls() {
    let g = hue_group();
    assert_eq!(g.get_id(), "hallway");
    assert_eq!(g.url_base(), "http://10.0.0.146:80/api/secret");
    assert_eq!(g.url_set_schedule(), "http://10.0.0.146:80/api/secret/schedules/1");
    assert_eq!(g.url_set_action(), "http://10.0.0.146:80/api/secret/groups/3/action");
    assert_eq!(g.url_get_state(), "http://10.0.0.146:80/api/secret/groups/3");
    assert_eq!(g.topics(), vec!["zigbee2mqtt/remote"]);
}

#[test]
fn hue_group_remote() {
    let mut g = hue_group();
    let reqs = g.on_mqtt(remote(RemoteAction::BrightnessMoveUp));
    assert_eq!(reqs.len(), 2);
    match &reqs[0] {
        HueRequest::Schedule { url, timer } => {
            assert_eq!(url, "http://10.0.0.146:80/api/secret/schedules/1");
            assert!(timer.timeout.is_none());
        }
        _ => panic!("expected the timer to be disarmed first"),
    }
    match &reqs[1] {
        HueRequest::Action { url, action } => {
            assert_eq!(url, "http://10.0.0.146:80/api/secret/groups/3/action");
            assert_eq!(action.scene.as_deref(), Some("aBc"));
            assert!(action.on.is_none());
        }
        _ => panic!("expected the scene"),
    }
    let reqs = g.on_mqtt(remote(RemoteAction::Off));
    match &reqs[1] {
        HueRequest::Action { action, .. } => {
            assert_eq!(action.on, Some(false));
            assert!(action.scene.is_none());
        }
        _ => panic!("expected the lights off"),
    }
    assert!(g.on_mqtt(remote(RemoteAction::BrightnessStop)).is_empty());
    assert!(g.on_mqtt(Err(ParseError::InvalidPayload(vec![]))).is_empty());
    let reqs = g.start_timeout(90);
    assert_eq!(reqs.len(), 2);
    match &reqs[1] {
        HueRequest::Schedule { timer, .. } => assert_eq!(timer.timeout, Some(90)),
        _ => panic!("expected the timer"),
    }
}

#[test]
fn hue_timer_message() {
    let armed = Timeout::new(Some(3661));
    assert_eq!(armed.status(), "enabled");
    assert_eq!(armed.localtime().unwrap(), "PT01:01:01");
    assert_eq!(Timeout::new(Some(59)).localtime().unwrap(), "PT00:00:59");
    assert_eq!(Timeout::new(Some(36000 * 10 + 600)).localtime().unwrap(), "PT100:10:00");
    let off = Timeout::new(None);
    assert_eq!(off.status(), "disabled");
    assert!(off.localtime().is_none());
}

#[test]
fn hue_bridge_flags() {
    let mut b = HueBridge::new(HueBridgeConfig {
        identifier: "hue_bridge".to_string(),
        ip: [192, 168, 1, 2],
        login: "user".to_string(),
        flags: FlagIDs { presence: 41, darkness: -2 },
    });
    assert_eq!(b.get_id(), "hue_bridge");
    let r = b.set_flag(Flag::Presence, true);
    assert_eq!(r.url, "http://192.168.1.2:80/api/user/sensors/41/state");
    assert!(r.flag);
    let r = b.on_darkness(false);
    assert_eq!(r.url, "http://192.168.1.2:80/api/user/sensors/-2/state");
    assert!(!r.flag);
    let r = b.on_presence(false);
    assert_eq!(r.url, "http://192.168.1.2:80/api/user/sensors/41/state");
}

#[test]
fn wake_on_lan() {
    let w = WakeOnLANConfig {
        info: InfoConfig { identifier: "pc".to_string(), name: "Desktop".to_string(), room: None },
        mqtt: MqttDeviceConfig { topic: "automation/pc".to_string() },
        mac_address: [1, 2, 3, 4, 5, 6],
        broadcast_ip: default_broadcast_ip(),
    }
    .create("pc".to_string());
    assert_eq!(w.get_id(), "pc");
    assert_eq!(w.topics(), vec!["automation/pc"]);
    assert_eq!(w.get_device_type(), Type::Scene);
    let name = w.get_device_name();
    assert_eq!(name.name, "Desktop");
    assert_eq!(name.default_names, vec!["Computer".to_string()]);
    assert_eq!(w.get_room_hint(), None);
    let req = w.set_active(true).ok().unwrap();
    assert_eq!(req.mac_address, [1, 2, 3, 4, 5, 6]);
    assert_eq!(req.broadcast_ip, [255, 255, 255, 255]);
    assert_eq!(req.port, 9);
    let packet = req.packet();
    assert_eq!(packet.len(), 102);
    assert_eq!(&packet[..6], &[0xFF; 6]);
    assert_eq!(&packet[6..12], &[1, 2, 3, 4, 5, 6]);
    assert_eq!(&packet[96..], &[1, 2, 3, 4, 5, 6]);
    assert!(matches!(
        w.set_active(false),
        Err(ErrorCode::DeviceError(DeviceError::ActionNotAvailable))
    ));
    assert!(matches!(w.on_mqtt(Ok(ActivateMessage { activate: true })), Some(Ok(_))));
    assert!(w.on_mqtt(Err(ParseError::InvalidPayload(vec![]))).is_none());
}

#[test]
fn debug_bridge_topics() {
    let mut d = DebugBridge::new(DebugBridgeConfig {
        identifier: "debug_bridge".to_string(),
        mqtt: MqttDeviceConfig { topic: "automation/debug".to_string() },
    });
    assert_eq!(d.get_id(), "debug_bridge");
    let p = d.on_presence(true);
    assert_eq!(p.topic, "automation/debug/presence");
    assert!(p.message.present());
    assert!(p.retain);
    let k = d.on_darkness(false);
    assert_eq!(k.topic, "automation/debug/darkness");
    assert!(!k.message.is_dark());
}

#[test]
fn wake_on_lan_send_outcome() {
    assert!(WakeOnLAN::sent_result::<String>(Ok(())).is_ok());
    assert!(matches!(
        WakeOnLAN::sent_result(Err("network unreachable".to_string())),
        Err(ErrorCode::DeviceError(DeviceError::TransientError))
    ));
}
