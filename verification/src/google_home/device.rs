//! The names and information of a device.
use vstd::prelude::*;
use crate::google_home::errors::{DeviceError, ErrorCode};
use crate::text::owned;

verus! {

/// The names of a device.
pub struct Name {
    pub default_names: Vec<String>,
    pub name: String,
    pub nicknames: Vec<String>,
}

impl Name {
    /// A name with no default names or nicknames.
    pub fn new(name: &str) -> (res: Self)
        ensures
            res.name@ == name@,
            res.default_names@.len() == 0,
            res.nicknames@.len() == 0,
    {
        Name { default_names: Vec::new(), name: owned(name), nicknames: Vec::new() }
    }

    pub fn add_default_name(&mut self, name: &str)
        ensures
            final(self).default_names@.len() == old(self).default_names@.len() + 1,
            final(self).default_names@.drop_last() == old(self).default_names@,
            final(self).default_names@.last()@ == name@,
            final(self).name == old(self).name,
            final(self).nicknames == old(self).nicknames,
    {
        self.default_names.push(owned(name));
        assert(self.default_names@.drop_last() =~= old(self).default_names@);
    }

    pub fn add_nickname(&mut self, name: &str)
        ensures
            final(self).nicknames@.len() == old(self).nicknames@.len() + 1,
            final(self).nicknames@.drop_last() == old(self).nicknames@,
            final(self).nicknames@.last()@ == name@,
            final(self).name == old(self).name,
            final(self).default_names == old(self).default_names,
    {
        self.nicknames.push(owned(name));
        assert(self.nicknames@.drop_last() =~= old(self).nicknames@);
    }
}

/// Information about a device's make.
pub struct Info {
    pub manufacturer: Option<String>,
    pub model: Option<String>,
    pub hw_version: Option<String>,
    pub sw_version: Option<String>,
}

/// What executing a command on a device answers: success when the device
/// carried the command out, a transient error whatever else went wrong.
pub fn execute_result<E>(executed: Result<(), E>) -> (res: Result<(), ErrorCode>)
    ensures
        executed is Ok ==> res is Ok,
        executed is Err ==> res == Err::<(), ErrorCode>(ErrorCode::DeviceError(DeviceError::TransientError)),
{
    match executed {
        Ok(()) => Ok(()),
        Err(_) => Err(ErrorCode::DeviceError(DeviceError::TransientError)),
    }
}

} // verus!
