//! An outlet that only remembers whether it is on, for trying things out.
use vstd::prelude::*;
use crate::google_home::errors::ErrorCode;
use crate::text::owned;

verus! {

/// A pretend outlet.
pub struct TestOutlet {
    on: bool,
}

impl TestOutlet {
    /// Whether the outlet is on.
    pub closed spec fn spec_on(&self) -> bool {
        self.on
    }

    /// A new outlet, off.
    pub fn new() -> (res: Self)
        ensures
            !res.spec_on(),
    {
        TestOutlet { on: false }
    }

    pub fn get_id(&self) -> (res: String)
        ensures
            res@ == "test_device"@,
    {
        owned("test_device")
    }

    pub fn is_on(&self) -> (res: Result<bool, ErrorCode>)
        ensures
            res == Ok::<bool, ErrorCode>(self.spec_on()),
    {
        Ok(self.on)
    }

    pub fn set_on(&mut self, on: bool) -> (res: Result<(), ErrorCode>)
        ensures
            final(self).spec_on() == on,
            res == Ok::<(), ErrorCode>(()),
    {
        self.on = on;
        Ok(())
    }
}

} // verus!
