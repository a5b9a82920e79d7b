//! The JSON messages that devices publish and receive over MQTT, as plain
//! values. Decoding and encoding the JSON happens at the edge of the program.
use vstd::prelude::*;
use crate::text::{owned, str_eq};

verus! {

/// Message used to turn devices on and off and to receive their state.
pub struct OnOffMessage {
    pub state: String,
}

/// The wire text of an on/off state.
pub open spec fn on_off_text(state: bool) -> Seq<char> {
    if state { "ON"@ } else { "OFF"@ }
}

impl OnOffMessage {
    /// "ON" for true, "OFF" for false.
    pub fn new(state: bool) -> (res: Self)
        ensures
            res.state@ == on_off_text(state),
    {
        OnOffMessage { state: owned(if state { "ON" } else { "OFF" }) }
    }

    /// On exactly when the state reads "ON".
    pub fn state(&self) -> (res: bool)
        ensures
            res == (self.state@ == "ON"@),
    {
        str_eq(self.state.as_str(), "ON")
    }
}

/// Reading back a message built from a state gives that state.
pub proof fn lemma_on_off_roundtrip(state: bool)
    ensures
        (on_off_text(state) == "ON"@) == state,
{
    reveal_strlit("ON");
    reveal_strlit("OFF");
    if !state {
        assert("OFF"@.len() != "ON"@.len());
    }
}

/// Message sent to request activating a device.
pub struct ActivateMessage {
    pub activate: bool,
}

impl ActivateMessage {
    pub fn activate(&self) -> (res: bool)
        ensures
            res == self.activate,
    {
        self.activate
    }
}

/// Actions that can be performed by a remote.
#[derive(Clone, Copy, PartialEq, Eq, Structural, Debug)]
pub enum RemoteAction {
    On,
    Off,
    BrightnessMoveUp,
    BrightnessMoveDown,
    BrightnessStop,
}

/// Message used to report the action performed by a remote.
pub struct RemoteMessage {
    pub action: RemoteAction,
}

impl RemoteMessage {
    pub fn action(&self) -> (res: RemoteAction)
        ensures
            res == self.action,
    {
        self.action
    }
}

#[verifier::external_type_specification]
#[verifier::external_body]
pub struct ExSystemTime(std::time::SystemTime);

/// `SystemTime::now`. Nothing is claimed of the value: it is whatever the
/// clock reads.
#[verifier::external_body]
fn clock_now() -> std::time::SystemTime {
    std::time::SystemTime::now()
}

/// `SystemTime::duration_since(UNIX_EPOCH)`, with its error (a time before
/// the epoch) as `None`. Nothing is claimed of the duration.
#[verifier::external_body]
fn duration_since_epoch(t: &std::time::SystemTime) -> Option<std::time::Duration> {
    t.duration_since(std::time::UNIX_EPOCH).ok()
}

/// `Duration::as_millis`. Nothing is claimed of the value: the duration is
/// opaque here.
#[verifier::external_body]
fn duration_millis(d: &std::time::Duration) -> u128 {
    d.as_millis()
}

/// The time now in milliseconds since the UNIX epoch; `None` when the clock
/// reads before the epoch.
fn epoch_millis() -> Option<u128> {
    match duration_since_epoch(&clock_now()) {
        Some(d) => Some(duration_millis(&d)),
        None => None,
    }
}

/// Message used to report the current presence state.
pub struct PresenceMessage {
    pub state: bool,
    pub updated: Option<u128>,
}

impl PresenceMessage {
    /// A presence report stamped with the current time (no stamp when the
    /// clock reads before the UNIX epoch).
    pub fn new(state: bool) -> (res: Self)
        ensures
            res.state == state,
    {
        Self { state, updated: epoch_millis() }
    }

    /// A presence report stamped with the given time.
    pub fn with_timestamp(state: bool, updated: u128) -> (res: Self)
        ensures
            res.state == state,
            res.updated == Some(updated),
    {
        PresenceMessage { state, updated: Some(updated) }
    }

    pub fn presence(&self) -> (res: bool)
        ensures
            res == self.state,
    {
        self.state
    }

    pub fn present(&self) -> (res: bool)
        ensures
            res == self.state,
    {
        self.state
    }
}

/// Message used to report the state of a light sensor.
pub struct BrightnessMessage {
    pub illuminance: isize,
}

impl BrightnessMessage {
    pub fn illuminance(&self) -> (res: isize)
        ensures
            res == self.illuminance,
    {
        self.illuminance
    }
}

/// Message used to report the state of a contact sensor.
pub struct ContactMessage {
    pub contact: bool,
}

impl ContactMessage {
    pub fn is_closed(&self) -> (res: bool)
        ensures
            res == self.contact,
    {
        self.contact
    }
}

/// Message used to report the current darkness state.
pub struct DarknessMessage {
    pub state: bool,
    pub updated: Option<u128>,
}

impl DarknessMessage {
    /// A darkness report stamped with the current time (no stamp when the
    /// clock reads before the UNIX epoch).
    pub fn new(state: bool) -> (res: Self)
        ensures
            res.state == state,
    {
        Self { state, updated: epoch_millis() }
    }

    /// A darkness report stamped with the given time.
    pub fn with_timestamp(state: bool, updated: u128) -> (res: Self)
        ensures
            res.state == state,
            res.updated == Some(updated),
    {
        DarknessMessage { state, updated: Some(updated) }
    }

    pub fn is_dark(&self) -> (res: bool)
        ensures
            res == self.state,
    {
        self.state
    }

    pub fn present(&self) -> (res: bool)
        ensures
            res == self.state,
    {
        self.state
    }
}

} // verus!
