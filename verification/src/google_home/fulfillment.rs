//! What the answers to QUERY and EXECUTE requests say of each device.
use vstd::prelude::*;
use crate::google_home::errors::ErrorCode;
use crate::google_home::response::execute;
use crate::google_home::response::query::{self, State, Status};

verus! {

/// The QUERY answer for a device: offline when it is not online, and its
/// state when that could be read (otherwise an empty state).
pub fn query_device<E>(online: bool, state: Result<State, E>) -> (res: query::Device)
    ensures
        res.online == online,
        res.status == (if online { Status::Success } else { Status::Offline }),
        res.error_code is None,
        state matches Ok(s) ==> res.state == s,
        state is Err ==> {
            &&& res.state.on is None
            &&& res.state.open_percent is None
            &&& res.state.brightness is None
            &&& res.state.current_fan_speed_setting is None
            &&& res.state.humidity_ambient_percent is None
        },
{
    let mut device = query::Device::new();
    if !online {
        device.set_offline();
    }
    if let Ok(s) = state {
        device.state = s;
    }
    device
}

/// The state of a device whose only state is whether it is on.
pub fn on_state(on: bool) -> (res: State)
    ensures
        res.on == Some(on),
        res.open_percent is None,
        res.brightness is None,
        res.current_fan_speed_setting is None,
        res.humidity_ambient_percent is None,
{
    let mut state = State::new();
    state.on = Some(on);
    state
}

/// The EXECUTE answer for a command on one device: success, or an error
/// with its code.
pub fn execute_outcome(id: String, result: Result<(), ErrorCode>) -> (res: execute::Command)
    ensures
        res.ids@ == seq![id],
        match result {
            Ok(()) => res.status == Status::Success && res.error_code is None,
            Err(e) => res.status == Status::Error && res.error_code == Some(e),
        },
{
    let mut ids: Vec<String> = Vec::new();
    ids.push(id);
    match result {
        Ok(()) => execute::Command { ids, status: Status::Success, error_code: None },
        Err(e) => execute::Command { ids, status: Status::Error, error_code: Some(e) },
    }
}

} // verus!
