//! The response to a QUERY request: the state of each device asked about.
use vstd::prelude::*;
use crate::google_home::errors::ErrorCode;

verus! {

/// How answering for a device went.
#[derive(Clone, Copy, PartialEq, Eq, Structural, Debug)]
pub enum Status {
    Success,
    Offline,
    Exceptions,
    Error,
}

/// The state of a device, one entry per trait it has.
pub struct State {
    pub on: Option<bool>,
    pub open_percent: Option<u8>,
    pub brightness: Option<u8>,
    pub current_fan_speed_setting: Option<String>,
    pub humidity_ambient_percent: Option<isize>,
}

impl State {
    /// A state that says nothing.
    pub fn new() -> (res: Self)
        ensures
            res.on is None,
            res.open_percent is None,
            res.brightness is None,
            res.current_fan_speed_setting is None,
            res.humidity_ambient_percent is None,
    {
        State {
            on: None,
            open_percent: None,
            brightness: None,
            current_fan_speed_setting: None,
            humidity_ambient_percent: None,
        }
    }
}

/// The answer for one device.
pub struct Device {
    pub online: bool,
    pub status: Status,
    pub error_code: Option<ErrorCode>,
    pub state: State,
}

impl Device {
    /// An online device whose query succeeded, with no state yet.
    pub fn new() -> (res: Self)
        ensures
            res.online,
            res.status == Status::Success,
            res.error_code is None,
            res.state.on is None,
            res.state.open_percent is None,
            res.state.brightness is None,
            res.state.current_fan_speed_setting is None,
            res.state.humidity_ambient_percent is None,
    {
        Device { online: true, status: Status::Success, error_code: None, state: State::new() }
    }

    /// Marks the device as offline.
    pub fn set_offline(&mut self)
        ensures
            !final(self).online,
            final(self).status == Status::Offline,
            final(self).error_code == old(self).error_code,
            final(self).state == old(self).state,
    {
        self.online = false;
        self.status = Status::Offline;
    }
}

/// The payload of a QUERY response: the answer for each device, by id.
pub struct Payload {
    pub error_code: Option<ErrorCode>,
    pub debug_string: Option<String>,
    pub devices: Vec<(String, Device)>,
}

impl Payload {
    pub fn new() -> (res: Self)
        ensures
            res.error_code is None,
            res.debug_string is None,
            res.devices@.len() == 0,
    {
        Payload { error_code: None, debug_string: None, devices: Vec::new() }
    }

    pub fn add_device(&mut self, id: String, device: Device)
        ensures
            final(self).devices@ == old(self).devices@.push((id, device)),
            final(self).error_code == old(self).error_code,
            final(self).debug_string == old(self).debug_string,
    {
        self.devices.push((id, device));
    }
}

} // verus!
