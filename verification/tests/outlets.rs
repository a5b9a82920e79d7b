use automation::config::{InfoConfig, MqttDeviceConfig};
use automation::devices::air_filter::{AirFilter, AirFilterConfig, AirFilterFanState};
use automation::devices::ikea_outlet::{Config, IkeaOutlet, OutletCommand, OutletType};
use automation::devices::kasa_outlet::{self, KasaOutlet, ResponseError};
use automation::devices::test_outlet::TestOutlet;
use automation::error::ParseError;
use automation::event::OnPresence;
use automation::google_home::errors::{DeviceError, ErrorCode};
use automation::google_home::types::Type;
use automation::messages::OnOffMessage;
use automation::traits::Timeout;

fn info(id: &str) -> InfoConfig {
    InfoConfig { identifier: id.to_string(), name: "Kettle".to_string(), room: Some("Kitchen".to_string()) }
}

fn outlet(outlet_type: OutletType, timeout: Option<u64>) -> IkeaOutlet {
    IkeaOutlet::new(Config {
        info: info("kitchen_kettle"),
        mqtt: MqttDeviceConfig { topic: "zigbee2mqtt/kitchen/kettle".to_string() },
        outlet_type,
        timeout,
    })
}

fn on_off(state: &str) -> Result<OnOffMessage, ParseError> {
    Ok(OnOffMessage { state: state.to_string() })
}

#[test]
fn kettle_switches_itself_off() {
    let mut k = outlet(OutletType::Kettle, Some(300));
    assert_eq!(k.get_id(), "kitchen_kettle");
    assert_eq!(k.set_topic(), "zigbee2mqtt/kitchen/kettle/set");
    let cmds = k.on_mqtt("zigbee2mqtt/kitchen/kettle", on_off("ON"));
    assert_eq!(cmds, vec![OutletCommand::StopTimer, OutletCommand::StopTimer, OutletCommand::StartTimer(300)]);
    assert!(k.on());
    // same state again: nothing
    assert!(k.on_mqtt("zigbee2mqtt/kitchen/kettle", on_off("ON")).is_empty());
    let cmds = k.on_mqtt("zigbee2mqtt/kitchen/kettle", on_off("OFF"));
    assert_eq!(cmds, vec![OutletCommand::StopTimer]);
    assert!(!k.on());
    // other topics and bad payloads are ignored
    assert!(k.on_mqtt("zigbee2mqtt/other", on_off("ON")).is_empty());
    assert!(k.on_mqtt("zigbee2mqtt/kitchen/kettle", Err(ParseError::InvalidPayload(vec![]))).is_empty());
}

#[test]
fn outlet_without_timeout() {
    let mut o = outlet(OutletType::Outlet, None);
    assert_eq!(o.on_mqtt("zigbee2mqtt/kitchen/kettle", on_off("ON")), vec![OutletCommand::StopTimer]);
    assert_eq!(o.start_timeout(5), vec![OutletCommand::StopTimer, OutletCommand::StartTimer(5)]);
    assert_eq!(o.stop_timeout(), vec![OutletCommand::StopTimer]);
}

#[test]
fn outlets_go_off_when_leaving_except_chargers() {
    let mut o = outlet(OutletType::Outlet, None);
    assert_eq!(o.on_presence(false), Some(OutletCommand::SetOn(false)));
    assert_eq!(o.on_presence(true), None);
    let mut c = outlet(OutletType::Charger, None);
    assert_eq!(c.on_presence(false), None);
}

#[test]
fn outlet_google_home_description() {
    assert_eq!(outlet(OutletType::Outlet, None).get_device_type(), Type::Outlet);
    assert_eq!(outlet(OutletType::Kettle, None).get_device_type(), Type::Kettle);
    assert_eq!(outlet(OutletType::Light, None).get_device_type(), Type::Light);
    assert_eq!(outlet(OutletType::Charger, None).get_device_type(), Type::Outlet);
    let o = outlet(OutletType::Outlet, None);
    assert_eq!(o.get_device_name().name, "Kettle");
    assert_eq!(o.get_room_hint(), Some("Kitchen"));
    assert!(o.is_online());
    assert!(!o.will_report_state());
    assert_eq!(o.set_on(true).state, "ON");
    assert_eq!(o.set_on(false).state, "OFF");
}

fn air_filter() -> AirFilter {
    AirFilter::new(AirFilterConfig {
        info: info("bedroom_air_filter"),
        mqtt: MqttDeviceConfig { topic: "pico/filter/bedroom".to_string() },
    })
}

#[test]
fn air_filter_speeds() {
    let mut f = air_filter();
    assert!(matches!(f.on(), Ok(false)));
    assert_eq!(f.current_fan_speed_setting().ok().unwrap(), "off");
    f.on_mqtt("pico/filter/bedroom", Ok(AirFilterFanState::Medium));
    assert!(matches!(f.on(), Ok(true)));
    assert_eq!(f.current_fan_speed_setting().ok().unwrap(), "medium");
    let q = f.query_state();
    assert_eq!(q.on, Some(true));
    assert_eq!(q.current_fan_speed_setting.as_deref(), Some("medium"));
    assert!(q.humidity_ambient_percent.is_none());
    f.on_mqtt("pico/filter/other", Ok(AirFilterFanState::High));
    assert_eq!(f.current_fan_speed_setting().ok().unwrap(), "medium");
    assert_eq!(f.set_fan_speed("low".to_string()).ok().unwrap().state, AirFilterFanState::Low);
    assert_eq!(f.set_fan_speed("high".to_string()).ok().unwrap().state, AirFilterFanState::High);
    assert!(matches!(
        f.set_fan_speed("turbo".to_string()),
        Err(ErrorCode::DeviceError(DeviceError::TransientError))
    ));
    assert_eq!(f.set_on(true).state, AirFilterFanState::High);
    assert_eq!(f.set_on(false).state, AirFilterFanState::Off);
    assert_eq!(f.set_topic(), "pico/filter/bedroom/set");
    assert_eq!(f.get_device_type(), Type::AirPurifier);
    assert_eq!(f.query_only_humidity_setting(), Some(true));
}

#[test]
fn air_filter_available_speeds() {
    let speeds = air_filter().available_fan_speeds();
    assert!(speeds.ordered);
    let names: Vec<&str> = speeds.speeds.iter().map(|s| s.speed_name.as_str()).collect();
    assert_eq!(names, vec!["off", "low", "medium", "high"]);
    let synonyms: Vec<&str> =
        speeds.speeds.iter().map(|s| s.speed_values[0].speed_synonym[0].as_str()).collect();
    assert_eq!(synonyms, vec!["Off", "Low", "Medium", "High"]);
    assert!(speeds.speeds.iter().all(|s| s.speed_values[0].lang == "en"));
}

#[test]
fn air_filter_reported_speed_can_be_set_back() {
    let mut f = air_filter();
    for s in [AirFilterFanState::Off, AirFilterFanState::Low, AirFilterFanState::Medium, AirFilterFanState::High] {
        f.on_mqtt("pico/filter/bedroom", Ok(s));
        let name = f.current_fan_speed_setting().ok().unwrap();
        assert_eq!(f.set_fan_speed(name).ok().unwrap().state, s);
    }
}

#[test]
fn test_outlet() {
    let mut t = TestOutlet::new();
    assert_eq!(t.get_id(), "test_device");
    assert!(matches!(t.is_on(), Ok(false)));
    assert!(t.set_on(true).is_ok());
    assert!(matches!(t.is_on(), Ok(true)));
}

#[test]
fn kasa_replies() {
    let k = KasaOutlet::create(kasa_outlet::Config { identifier: "kasa".to_string(), ip: automation::config::IpAddress::V4([10, 0, 0, 2]) });
    assert_eq!(k.get_id(), "kasa");
    let reply = kasa_outlet::Response {
        system: kasa_outlet::ResponseSystem {
            set_relay_state: None,
            get_sysinfo: Some(kasa_outlet::ResponseGetSysinfo {
                err_code: kasa_outlet::ErrorCode { err_code: 0 },
                relay_state: 1,
            }),
        },
    };
    assert!(matches!(KasaOutlet::on_from_reply(Ok(reply)), Ok(true)));
    assert!(matches!(
        KasaOutlet::on_from_reply(Err(ResponseError::ToShort)),
        Err(ErrorCode::DeviceError(DeviceError::TransientError))
    ));
    let empty = kasa_outlet::Response {
        system: kasa_outlet::ResponseSystem { set_relay_state: None, get_sysinfo: None },
    };
    assert!(matches!(
        KasaOutlet::set_on_from_reply(Ok(empty)),
        Err(ErrorCode::DeviceError(DeviceError::TransientError))
    ));
}

#[test]
fn kasa_exchanges() {
    assert!(matches!(
        KasaOutlet::on_from_exchange(None),
        Err(ErrorCode::DeviceError(DeviceError::DeviceOffline))
    ));
    assert!(matches!(
        KasaOutlet::set_on_from_exchange(None),
        Err(ErrorCode::DeviceError(DeviceError::DeviceOffline))
    ));
    assert!(matches!(
        KasaOutlet::on_from_exchange(Some(Err(ResponseError::ToShort))),
        Err(ErrorCode::DeviceError(DeviceError::TransientError))
    ));
    let reply = kasa_outlet::Response {
        system: kasa_outlet::ResponseSystem {
            set_relay_state: Some(kasa_outlet::ResponseSetRelayState { err_code: kasa_outlet::ErrorCode { err_code: 0 } }),
            get_sysinfo: None,
        },
    };
    assert!(matches!(KasaOutlet::set_on_from_exchange(Some(Ok(reply))), Ok(())));
}
