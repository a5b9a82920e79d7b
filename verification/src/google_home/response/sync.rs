//! The response to a SYNC request: the devices of the user.
use vstd::prelude::*;
use crate::google_home::device::{Info, Name};
use crate::google_home::errors::ErrorCode;
use crate::google_home::traits::Trait;
use crate::google_home::types::Type;
use crate::text::owned;

verus! {

#[verifier::external_type_specification]
#[verifier::external_body]
pub struct ExJsonValue(serde_json::Value);

/// The payload of a SYNC response.
pub struct Payload {
    pub agent_user_id: String,
    pub error_code: Option<ErrorCode>,
    pub debug_string: Option<String>,
    pub devices: Vec<Device>,
}

impl Payload {
    pub fn new(agent_user_id: &str) -> (res: Self)
        ensures
            res.agent_user_id@ == agent_user_id@,
            res.error_code is None,
            res.debug_string is None,
            res.devices@.len() == 0,
    {
        Payload {
            agent_user_id: owned(agent_user_id),
            error_code: None,
            debug_string: None,
            devices: Vec::new(),
        }
    }

    pub fn add_device(&mut self, device: Device)
        ensures
            final(self).devices@ == old(self).devices@.push(device),
            final(self).agent_user_id == old(self).agent_user_id,
            final(self).error_code == old(self).error_code,
            final(self).debug_string == old(self).debug_string,
    {
        self.devices.push(device);
    }
}

/// A device as a SYNC response describes it.
pub struct Device {
    pub id: String,
    pub device_type: Type,
    pub traits: Vec<Trait>,
    pub name: Name,
    pub will_report_state: bool,
    pub notification_supported_by_agent: Option<bool>,
    pub room_hint: Option<String>,
    pub device_info: Option<Info>,
    /// The attributes of its traits; none (JSON null) when they could not be
    /// listed.
    pub attributes: Option<serde_json::Value>,
}

impl Device {
    /// A device with the given id, name and type, and nothing else yet.
    pub fn new(id: &str, name: &str, device_type: Type) -> (res: Self)
        ensures
            res.id@ == id@,
            res.device_type == device_type,
            res.traits@.len() == 0,
            res.name.name@ == name@,
            res.name.default_names@.len() == 0,
            res.name.nicknames@.len() == 0,
            !res.will_report_state,
            res.notification_supported_by_agent is None,
            res.room_hint is None,
            res.device_info is None,
            res.attributes is None,
    {
        Device {
            id: owned(id),
            device_type,
            traits: Vec::new(),
            name: Name::new(name),
            will_report_state: false,
            notification_supported_by_agent: None,
            room_hint: None,
            device_info: None,
            attributes: None,
        }
    }

    /// The SYNC description of a device from what it says of itself: its
    /// id, names, type, whether it reports state, its room, its make, and
    /// (when its traits could be listed) its traits and their attributes.
    pub fn sync(
        id: &str,
        name: Name,
        device_type: Type,
        will_report_state: bool,
        room_hint: Option<&str>,
        device_info: Option<Info>,
        fulfillment: Option<(Vec<Trait>, serde_json::Value)>,
    ) -> (res: Self)
        ensures
            res.id@ == id@,
            res.device_type == device_type,
            res.name == name,
            res.will_report_state == will_report_state,
            res.notification_supported_by_agent is None,
            match room_hint {
                Some(r) => res.room_hint matches Some(h) && h@ == r@,
                None => res.room_hint is None,
            },
            res.device_info == device_info,
            match fulfillment {
                Some(f) => res.traits == f.0 && res.attributes == Some(f.1),
                None => res.traits@.len() == 0 && res.attributes is None,
            },
    {
        let mut device = Device::new(id, name.name.as_str(), device_type);
        device.name = name;
        device.will_report_state = will_report_state;
        if let Some(room) = room_hint {
            device.room_hint = Some(owned(room));
        }
        device.device_info = device_info;
        if let Some((traits, attributes)) = fulfillment {
            device.traits = traits;
            device.attributes = Some(attributes);
        }
        device
    }
}

} // verus!
