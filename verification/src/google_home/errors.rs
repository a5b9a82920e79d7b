//! Errors reported to Google Home.
use vstd::prelude::*;

verus! {

/// A device-level error.
#[derive(Clone, Copy, PartialEq, Eq, Structural, Debug)]
pub enum DeviceError {
    DeviceOffline,
    TransientError,
    ActionNotAvailable,
}

/// An error code of a fulfillment response.
#[derive(Clone, Copy, PartialEq, Eq, Structural, Debug)]
pub enum ErrorCode {
    DeviceError(DeviceError),
}

} // verus!
