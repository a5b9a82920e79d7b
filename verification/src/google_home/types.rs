//! Device types.
use vstd::prelude::*;

verus! {

/// The type of a device, as Google Home knows it.
#[derive(Clone, Copy, PartialEq, Eq, Structural, Debug)]
pub enum Type {
    Kettle,
    Outlet,
    Light,
    Scene,
    AirPurifier,
    Door,
    Window,
    Drawer,
}

} // verus!
