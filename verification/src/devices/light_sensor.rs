//! A light sensor that decides whether it is dark, with hysteresis: below
//! (or at) `min` it is dark, above (or at) `max` it is light, and in between
//! the previous state is kept.
use vstd::prelude::*;
use crate::error::ParseError;
use crate::event::Event;
use crate::messages::BrightnessMessage;
use crate::mqtt::{matchable_topic, mqtt_topic_matches, topic_matches, MqttDeviceConfig};

verus! {

/// The darkness of the house before the sensor has reported.
pub const DEFAULT_DARKNESS: bool = false;

/// Configuration of a light sensor.
pub struct LightSensorConfig {
    pub identifier: String,
    pub mqtt: MqttDeviceConfig,
    pub min: isize,
    pub max: isize,
}

/// The darkness after a reading of `illuminance`, given the darkness before.
pub open spec fn next_darkness(illuminance: int, min: int, max: int, is_dark: bool) -> bool {
    if illuminance <= min {
        true
    } else if illuminance >= max {
        false
    } else {
        is_dark
    }
}

/// A light sensor with its current darkness.
pub struct LightSensor {
    config: LightSensorConfig,
    is_dark: bool,
}

impl LightSensor {
    /// The configuration the device was made with.
    pub closed spec fn config(&self) -> LightSensorConfig {
        self.config
    }

    /// Whether the sensor currently considers it dark.
    pub closed spec fn dark(&self) -> bool {
        self.is_dark
    }

    /// A sensor that starts out considering it light.
    pub fn new(config: LightSensorConfig) -> (res: Self)
        ensures
            res.config() == config,
            res.dark() == DEFAULT_DARKNESS,
    {
        LightSensor { config, is_dark: DEFAULT_DARKNESS }
    }

    pub fn get_id(&self) -> (res: String)
        ensures
            res == self.config().identifier,
    {
        self.config.identifier.clone()
    }

    /// Whether it is dark now.
    pub fn is_dark(&self) -> (res: bool)
        ensures
            res == self.dark(),
    {
        self.is_dark
    }

    /// Handles a brightness report on `topic`; `parsed` is its payload
    /// decoded. Reports on other topics and undecodable ones are ignored.
    /// When the darkness changes, the new darkness is announced.
    pub fn on_mqtt(&mut self, topic: &str, parsed: Result<BrightnessMessage, ParseError>) -> (res:
        Option<Event>)
        requires
            matchable_topic(topic@),
        ensures
            final(self).config() == old(self).config(),
            final(self).dark() == (if mqtt_topic_matches(topic@, old(self).config().mqtt.topic@) {
                match parsed {
                    Ok(msg) => next_darkness(
                        msg.illuminance as int,
                        old(self).config().min as int,
                        old(self).config().max as int,
                        old(self).dark(),
                    ),
                    Err(_) => old(self).dark(),
                }
            } else {
                old(self).dark()
            }),
            res == (if final(self).dark() != old(self).dark() {
                Some(Event::Darkness(final(self).dark()))
            } else {
                None
            }),
    {
        if !topic_matches(topic, self.config.mqtt.topic.as_str()) {
            return None;
        }
        let illuminance = match parsed {
            Ok(state) => state.illuminance(),
            Err(_) => {
                return None;
            },
        };
        let is_dark = if illuminance <= self.config.min {
            true
        } else if illuminance >= self.config.max {
            false
        } else {
            self.is_dark
        };
        if is_dark != self.is_dark {
            self.is_dark = is_dark;
            Some(Event::Darkness(is_dark))
        } else {
            None
        }
    }
}

/// Readings at or below `min` always make it dark, readings at or above
/// `max` (when above `min`) always make it light, and readings strictly
/// between them never change the darkness.
pub proof fn lemma_darkness_hysteresis(illuminance: int, min: int, max: int, is_dark: bool)
    ensures
        illuminance <= min ==> next_darkness(illuminance, min, max, is_dark),
        min < illuminance && max <= illuminance ==> !next_darkness(illuminance, min, max, is_dark),
        min < illuminance < max ==> next_darkness(illuminance, min, max, is_dark) == is_dark,
{
}

} // verus!
