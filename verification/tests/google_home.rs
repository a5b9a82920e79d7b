use automation::devices::DeviceKind;
use automation::google_home::command::{supports, Command};
use automation::google_home::errors::DeviceError as DevErr;
use automation::google_home::fulfillment::{execute_outcome, on_state, query_device};
use automation::google_home::response::execute::Payload as ExecutePayload;
use automation::google_home::response::query::{Payload as QueryPayload, State, Status};
use automation::google_home::device::execute_result;
use automation::google_home::errors::{DeviceError, ErrorCode};
use automation::google_home::device::{Info, Name};
use automation::google_home::response::sync::{Device, Payload};
use automation::google_home::response::{Response, ResponsePayload};
use automation::google_home::traits::Trait;
use automation::google_home::types::Type;

#[test]
fn serialize() {
    let mut sync_resp = Payload::new("1836.15267389");

    let mut device = Device::new("123", "Night light", Type::Kettle);
    device.traits.push(Trait::OnOff);
    device.name.add_default_name("My Outlet 1234");
    device.name.add_nickname("wall plug");

    device.room_hint = Some("kitchen".into());
    device.device_info = Some(Info {
        manufacturer: Some("lights-out-inc".into()),
        model: Some("hs1234".into()),
        hw_version: Some("3.2".into()),
        sw_version: Some("11.4".into()),
    });

    sync_resp.add_device(device);

    let resp = Response::new("ff36a3cc-ec34-11e6-b1a0-64510650abcf", ResponsePayload::Sync(sync_resp));

    assert_eq!(resp.request_id, "ff36a3cc-ec34-11e6-b1a0-64510650abcf");
    let ResponsePayload::Sync(payload) = &resp.payload else { panic!("expected a SYNC payload") };
    assert_eq!(payload.agent_user_id, "1836.15267389");
    assert!(payload.error_code.is_none());
    assert!(payload.debug_string.is_none());
    assert_eq!(payload.devices.len(), 1);
    let d = &payload.devices[0];
    assert_eq!(d.id, "123");
    assert_eq!(d.device_type, Type::Kettle);
    assert_eq!(d.traits, vec![Trait::OnOff]);
    assert_eq!(d.name.default_names, vec!["My Outlet 1234".to_string()]);
    assert_eq!(d.name.name, "Night light");
    assert_eq!(d.name.nicknames, vec!["wall plug".to_string()]);
    assert!(!d.will_report_state);
    assert_eq!(d.room_hint.as_deref(), Some("kitchen"));
    let info = d.device_info.as_ref().unwrap();
    assert_eq!(info.manufacturer.as_deref(), Some("lights-out-inc"));
    assert_eq!(info.model.as_deref(), Some("hs1234"));
    assert_eq!(info.hw_version.as_deref(), Some("3.2"));
    assert_eq!(info.sw_version.as_deref(), Some("11.4"));
    assert!(d.attributes.is_none());
}

#[test]
fn sync_description_of_a_device() {
    let mut name = Name::new("Desk lamp");
    name.add_nickname("lamp");
    let d = Device::sync("desk", name, Type::Light, true, Some("Office"), None, Some((vec![Trait::OnOff], serde_json::Value::from(1))));
    assert_eq!(d.id, "desk");
    assert_eq!(d.name.name, "Desk lamp");
    assert_eq!(d.name.nicknames, vec!["lamp".to_string()]);
    assert!(d.will_report_state);
    assert_eq!(d.room_hint.as_deref(), Some("Office"));
    assert_eq!(d.traits, vec![Trait::OnOff]);
    assert_eq!(d.attributes, Some(serde_json::Value::from(1)));
    let bare = Device::sync("x", Name::new("X"), Type::Door, false, None, None, None);
    assert!(bare.traits.is_empty());
    assert!(bare.room_hint.is_none());
    assert!(bare.attributes.is_none());
}

#[test]
fn execute_reports_failures_as_transient() {
    assert_eq!(execute_result::<String>(Ok(())), Ok(()));
    assert_eq!(
        execute_result(Err("no reply".to_string())),
        Err(ErrorCode::DeviceError(DeviceError::TransientError))
    );
}

#[test]
fn commands_need_their_trait() {
    let outlet = DeviceKind::IkeaOutlet.traits();
    assert_eq!(outlet, vec![Trait::OnOff]);
    assert_eq!(DeviceKind::AirFilter.traits(), vec![Trait::OnOff, Trait::FanSpeed, Trait::HumiditySetting]);
    assert_eq!(DeviceKind::WakeOnLan.traits(), vec![Trait::Scene]);
    assert!(DeviceKind::Washer.traits().is_empty());
    assert!(supports(&outlet, &Command::OnOff { on: true }));
    assert!(!supports(&outlet, &Command::SetFanSpeed { fan_speed: "low".to_string() }));
    assert!(supports(&DeviceKind::AirFilter.traits(), &Command::SetFanSpeed { fan_speed: "low".to_string() }));
    assert!(!supports(&outlet, &Command::ActivateScene { deactivate: false }));
    assert_eq!(Command::BrightnessAbsolute { brightness: 3 }.required_trait(), Trait::Brightness);
    assert_eq!(Command::OpenClose { open_percent: 3 }.required_trait(), Trait::OpenClose);
}

#[test]
fn query_answers() {
    let d = query_device::<()>(true, Ok(on_state(true)));
    assert!(d.online);
    assert_eq!(d.status, Status::Success);
    assert_eq!(d.state.on, Some(true));
    let d = query_device(false, Err(()));
    assert!(!d.online);
    assert_eq!(d.status, Status::Offline);
    assert!(d.error_code.is_none());
    assert!(d.state.on.is_none() && d.state.current_fan_speed_setting.is_none());
    let mut p = QueryPayload::new();
    p.add_device("lamp".to_string(), query_device::<()>(true, Ok(State::new())));
    assert_eq!(p.devices.len(), 1);
    assert_eq!(p.devices[0].0, "lamp");
}

#[test]
fn execute_answers() {
    let ok = execute_outcome("lamp".to_string(), Ok(()));
    assert_eq!(ok.ids, vec!["lamp".to_string()]);
    assert_eq!(ok.status, Status::Success);
    assert!(ok.error_code.is_none());
    let err = execute_outcome("pc".to_string(), Err(ErrorCode::DeviceError(DevErr::ActionNotAvailable)));
    assert_eq!(err.status, Status::Error);
    assert_eq!(err.error_code, Some(ErrorCode::DeviceError(DevErr::ActionNotAvailable)));
    let mut p = ExecutePayload::new();
    p.add_command(ok);
    p.add_command(err);
    assert_eq!(p.commands.len(), 2);
}
