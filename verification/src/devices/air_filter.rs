//! An air purifier controlled over MQTT, with four fan speeds.
use vstd::prelude::*;
use vstd::string::*;
use crate::config::{InfoConfig, MqttDeviceConfig};
use crate::error::ParseError;
use crate::google_home::device::Name;
use crate::google_home::errors::{DeviceError, ErrorCode};
use crate::google_home::response::query::State;
use crate::google_home::traits::{AvailableSpeeds, Speed, SpeedValue};
use crate::google_home::types::Type;
use crate::mqtt::{matchable_topic, mqtt_topic_matches, topic_matches};
use crate::text::{owned, str_eq};

verus! {

/// The fan speed of the air filter.
#[derive(Clone, Copy, PartialEq, Eq, Structural, Debug)]
pub enum AirFilterFanState {
    Off,
    Low,
    Medium,
    High,
}

/// The request that sets the fan speed.
pub struct SetAirFilterFanState {
    pub state: AirFilterFanState,
}

impl SetAirFilterFanState {
    pub fn new(state: AirFilterFanState) -> (res: Self)
        ensures
            res.state == state,
    {
        SetAirFilterFanState { state }
    }
}

/// Configuration of an air filter.
pub struct AirFilterConfig {
    pub info: InfoConfig,
    pub mqtt: MqttDeviceConfig,
}

/// An air filter and the fan speed it last reported.
pub struct AirFilter {
    config: AirFilterConfig,
    last_known_state: AirFilterFanState,
}

/// The Google Home name of a fan speed.
pub open spec fn speed_name(state: AirFilterFanState) -> Seq<char> {
    match state {
        AirFilterFanState::Off => "off"@,
        AirFilterFanState::Low => "low"@,
        AirFilterFanState::Medium => "medium"@,
        AirFilterFanState::High => "high"@,
    }
}

/// The fan speed with a Google Home name, if any.
pub open spec fn speed_of_name(name: Seq<char>) -> Option<AirFilterFanState> {
    if name == "off"@ {
        Some(AirFilterFanState::Off)
    } else if name == "low"@ {
        Some(AirFilterFanState::Low)
    } else if name == "medium"@ {
        Some(AirFilterFanState::Medium)
    } else if name == "high"@ {
        Some(AirFilterFanState::High)
    } else {
        None
    }
}

/// Setting the fan to the speed that is reported as the current one gives
/// back that speed: the names of the speeds and their parsing agree.
pub proof fn lemma_speed_name_roundtrip(state: AirFilterFanState)
    ensures
        speed_of_name(speed_name(state)) == Some(state),
{
    reveal_strlit("off");
    reveal_strlit("low");
    reveal_strlit("medium");
    reveal_strlit("high");
    assert("low"@[0] != "off"@[0]);
    assert("medium"@.len() != "off"@.len());
    assert("medium"@.len() != "low"@.len());
    assert("high"@.len() != "off"@.len());
    assert("high"@.len() != "low"@.len());
    assert("high"@.len() != "medium"@.len());
}

impl AirFilter {
    pub closed spec fn config(&self) -> AirFilterConfig {
        self.config
    }

    /// The fan speed the filter last reported.
    pub closed spec fn state(&self) -> AirFilterFanState {
        self.last_known_state
    }

    /// A new air filter, believed off.
    pub fn new(config: AirFilterConfig) -> (res: Self)
        ensures
            res.config() == config,
            res.state() == AirFilterFanState::Off,
    {
        AirFilter { config, last_known_state: AirFilterFanState::Off }
    }

    pub fn get_id(&self) -> (res: String)
        ensures
            res == self.config().info.identifier,
    {
        self.config.info.identifier()
    }

    /// The topic on which requests to the filter are published.
    pub fn set_topic(&self) -> (res: String)
        ensures
            res@ == self.config().mqtt.topic@ + "/set"@,
    {
        let mut topic = self.config.mqtt.topic.clone();
        topic.append("/set");
        topic
    }

    /// Handles a state report on `topic`; `parsed` is the fan speed its
    /// payload reports. Records the speed of matching, decodable reports.
    pub fn on_mqtt(&mut self, topic: &str, parsed: Result<AirFilterFanState, ParseError>)
        requires
            matchable_topic(topic@),
        ensures
            final(self).config() == old(self).config(),
            final(self).state() == (if mqtt_topic_matches(topic@, old(self).config().mqtt.topic@) {
                match parsed {
                    Ok(s) => s,
                    Err(_) => old(self).state(),
                }
            } else {
                old(self).state()
            }),
    {
        if !topic_matches(topic, self.config.mqtt.topic.as_str()) {
            return;
        }
        match parsed {
            Ok(state) => {
                self.last_known_state = state;
            },
            Err(_) => {},
        }
    }

    pub fn get_device_type(&self) -> (res: Type)
        ensures
            res == Type::AirPurifier,
    {
        Type::AirPurifier
    }

    pub fn get_device_name(&self) -> (res: Name)
        ensures
            res.name@ == self.config().info.name@,
            res.default_names@.len() == 0,
            res.nicknames@.len() == 0,
    {
        Name::new(self.config.info.name.as_str())
    }

    pub fn is_online(&self) -> (res: bool)
        ensures
            res,
    {
        true
    }

    pub fn get_room_hint(&self) -> (res: Option<&str>)
        ensures
            match self.config().info.room {
                Some(r) => res matches Some(h) && h@ == r@,
                None => res is None,
            },
    {
        match &self.config.info.room {
            Some(r) => Some(r.as_str()),
            None => None,
        }
    }

    pub fn will_report_state(&self) -> (res: bool)
        ensures
            !res,
    {
        false
    }

    /// On unless the fan is off.
    pub fn on(&self) -> (res: Result<bool, ErrorCode>)
        ensures
            res == Ok::<bool, ErrorCode>(self.state() != AirFilterFanState::Off),
    {
        Ok(self.last_known_state != AirFilterFanState::Off)
    }

    /// The request that switches the filter: on means the highest speed.
    pub fn set_on(&self, on: bool) -> (res: SetAirFilterFanState)
        ensures
            res.state == (if on { AirFilterFanState::High } else { AirFilterFanState::Off }),
    {
        if on {
            SetAirFilterFanState::new(AirFilterFanState::High)
        } else {
            SetAirFilterFanState::new(AirFilterFanState::Off)
        }
    }

    /// The speeds the filter offers, in order, each with its English name.
    pub fn available_fan_speeds(&self) -> (res: AvailableSpeeds)
        ensures
            res.ordered,
            res.speeds@.len() == 4,
            forall|i: int|
                #![trigger res.speeds@[i]]
                0 <= i < 4 ==> {
                    let state = if i == 0 {
                        AirFilterFanState::Off
                    } else if i == 1 {
                        AirFilterFanState::Low
                    } else if i == 2 {
                        AirFilterFanState::Medium
                    } else {
                        AirFilterFanState::High
                    };
                    &&& res.speeds@[i].speed_name@ == speed_name(state)
                    &&& res.speeds@[i].speed_values@.len() == 1
                    &&& res.speeds@[i].speed_values@[0].lang@ == "en"@
                    &&& res.speeds@[i].speed_values@[0].speed_synonym@.len() == 1
                },
            res.speeds@[0].speed_values@[0].speed_synonym@[0]@ == "Off"@,
            res.speeds@[1].speed_values@[0].speed_synonym@[0]@ == "Low"@,
            res.speeds@[2].speed_values@[0].speed_synonym@[0]@ == "Medium"@,
            res.speeds@[3].speed_values@[0].speed_synonym@[0]@ == "High"@,
    {
        let mut speeds: Vec<Speed> = Vec::new();
        speeds.push(Self::speed("off", "Off"));
        speeds.push(Self::speed("low", "Low"));
        speeds.push(Self::speed("medium", "Medium"));
        speeds.push(Self::speed("high", "High"));
        AvailableSpeeds { speeds, ordered: true }
    }

    fn speed(name: &str, synonym: &str) -> (res: Speed)
        ensures
            res.speed_name@ == name@,
            res.speed_values@.len() == 1,
            res.speed_values@[0].lang@ == "en"@,
            res.speed_values@[0].speed_synonym@.len() == 1,
            res.speed_values@[0].speed_synonym@[0]@ == synonym@,
    {
        let mut synonyms: Vec<String> = Vec::new();
        synonyms.push(owned(synonym));
        let mut values: Vec<SpeedValue> = Vec::new();
        values.push(SpeedValue { speed_synonym: synonyms, lang: owned("en") });
        Speed { speed_name: owned(name), speed_values: values }
    }

    /// The name of the current fan speed.
    pub fn current_fan_speed_setting(&self) -> (res: Result<String, ErrorCode>)
        ensures
            res matches Ok(s) && s@ == speed_name(self.state()),
    {
        let speed = match self.last_known_state {
            AirFilterFanState::Off => "off",
            AirFilterFanState::Low => "low",
            AirFilterFanState::Medium => "medium",
            AirFilterFanState::High => "high",
        };
        Ok(owned(speed))
    }

    /// The state a QUERY answer reports: whether the filter is on and the
    /// name of its fan speed. (The humidity reading is not kept here.)
    pub fn query_state(&self) -> (res: State)
        ensures
            res.on == Some(self.state() != AirFilterFanState::Off),
            res.current_fan_speed_setting matches Some(s) && s@ == speed_name(self.state()),
            res.open_percent is None,
            res.brightness is None,
            res.humidity_ambient_percent is None,
    {
        let mut state = State::new();
        state.on = Some(self.last_known_state != AirFilterFanState::Off);
        state.current_fan_speed_setting = match self.current_fan_speed_setting() {
            Ok(s) => Some(s),
            Err(_) => None,
        };
        state
    }

    /// The request that sets the fan to the speed with the given name; an
    /// unknown name is a transient error.
    pub fn set_fan_speed(&self, fan_speed: String) -> (res: Result<SetAirFilterFanState, ErrorCode>)
        ensures
            match speed_of_name(fan_speed@) {
                Some(s) => res matches Ok(r) && r.state == s,
                None => res == Err::<SetAirFilterFanState, ErrorCode>(
                    ErrorCode::DeviceError(DeviceError::TransientError),
                ),
            },
    {
        let fan_speed = fan_speed.as_str();
        let state = if str_eq(fan_speed, "off") {
            AirFilterFanState::Off
        } else if str_eq(fan_speed, "low") {
            AirFilterFanState::Low
        } else if str_eq(fan_speed, "medium") {
            AirFilterFanState::Medium
        } else if str_eq(fan_speed, "high") {
            AirFilterFanState::High
        } else {
            return Err(ErrorCode::DeviceError(DeviceError::TransientError));
        };
        Ok(SetAirFilterFanState::new(state))
    }

    /// The filter only reports humidity; it cannot be set.
    pub fn query_only_humidity_setting(&self) -> (res: Option<bool>)
        ensures
            res == Some(true),
    {
        Some(true)
    }
}

} // verus!
