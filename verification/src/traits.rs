//! Devices that can switch themselves off after a while.
use vstd::prelude::*;

verus! {

/// A device that can switch itself off after a timeout. The methods give
/// back what has to be done to start or stop the timer.
pub trait Timeout {
    type Command;

    /// Starts a timer of `timeout` seconds, stopping a running one first.
    fn start_timeout(&mut self, timeout: u64) -> Vec<Self::Command>;

    /// Stops a running timer.
    fn stop_timeout(&mut self) -> Vec<Self::Command>;
}

} // verus!
