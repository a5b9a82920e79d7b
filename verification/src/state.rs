//! Devices with an on/off state.
use vstd::prelude::*;

verus! {

/// A device whose on/off state can be set and read.
pub trait StateOnOff {
    fn set_state(&mut self, state: bool);
    fn get_state(&self) -> bool;
}

} // verus!
