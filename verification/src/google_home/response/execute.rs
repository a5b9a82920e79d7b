//! The response to an EXECUTE request: how each command went on each
//! device.
use vstd::prelude::*;
use crate::google_home::errors::ErrorCode;
use crate::google_home::response::query::Status;

verus! {

/// The outcome of a command on some devices.
pub struct Command {
    pub ids: Vec<String>,
    pub status: Status,
    pub error_code: Option<ErrorCode>,
}

/// The payload of an EXECUTE response.
pub struct Payload {
    pub error_code: Option<ErrorCode>,
    pub debug_string: Option<String>,
    pub commands: Vec<Command>,
}

impl Payload {
    pub fn new() -> (res: Self)
        ensures
            res.error_code is None,
            res.debug_string is None,
            res.commands@.len() == 0,
    {
        Payload { error_code: None, debug_string: None, commands: Vec::new() }
    }

    pub fn add_command(&mut self, command: Command)
        ensures
            final(self).commands@ == old(self).commands@.push(command),
            final(self).error_code == old(self).error_code,
            final(self).debug_string == old(self).debug_string,
    {
        self.commands.push(command);
    }
}

} // verus!
