//! Device traits and their attribute types.
use vstd::prelude::*;

verus! {

/// A trait that a device can have.
#[derive(Clone, Copy, PartialEq, Eq, Structural, Debug)]
pub enum Trait {
    OnOff,
    OpenClose,
    Brightness,
    Scene,
    FanSpeed,
    HumiditySetting,
    TemperatureControl,
}

/// The synonyms of a fan speed in one language.
pub struct SpeedValue {
    pub speed_synonym: Vec<String>,
    pub lang: String,
}

/// A fan speed and its names.
pub struct Speed {
    pub speed_name: String,
    pub speed_values: Vec<SpeedValue>,
}

/// The fan speeds a device offers.
pub struct AvailableSpeeds {
    pub speeds: Vec<Speed>,
    pub ordered: bool,
}

/// The unit of temperatures.
#[derive(Clone, Copy, PartialEq, Eq, Structural, Debug)]
pub enum TemperatureUnit {
    Celsius,
    Fahrenheit,
}

} // verus!
