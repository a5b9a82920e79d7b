//! An IKEA smart outlet controlled over MQTT (through zigbee2mqtt). A kettle
//! can be given a timeout after which it switches itself off, and outlets
//! (but not chargers) switch off when everybody leaves.
use vstd::prelude::*;
use vstd::string::*;
use crate::config::{InfoConfig, MqttDeviceConfig};
use crate::error::ParseError;
use crate::event::OnPresence;
use crate::google_home::device::Name;
use crate::google_home::types::Type;
use crate::messages::OnOffMessage;
use crate::mqtt::{matchable_topic, mqtt_topic_matches, topic_matches};
use crate::traits::Timeout;

verus! {

/// What is plugged into the outlet.
#[derive(Clone, Copy, PartialEq, Eq, Structural, Debug)]
pub enum OutletType {
    Outlet,
    Kettle,
    Charger,
    Light,
}

/// Configuration of an outlet; the timeout is in seconds.
pub struct Config {
    pub info: InfoConfig,
    pub mqtt: MqttDeviceConfig,
    pub outlet_type: OutletType,
    pub timeout: Option<u64>,
}

/// What the outlet wants done by the world around it.
#[derive(PartialEq, Eq, Structural, Debug)]
pub enum OutletCommand {
    /// Abort the running switch-off timer, if any.
    StopTimer,
    /// Start a timer that switches the outlet off after this many seconds.
    StartTimer(u64),
    /// Publish an on/off request to the outlet.
    SetOn(bool),
}

/// The last state the outlet reported, and whether a timer runs.
pub struct State {
    pub last_known_state: bool,
    pub timer_running: bool,
}

/// An IKEA outlet.
pub struct IkeaOutlet {
    config: Config,
    state: State,
}

/// The Google Home type of an outlet.
pub open spec fn outlet_device_type(outlet_type: OutletType) -> Type {
    match outlet_type {
        OutletType::Outlet => Type::Outlet,
        OutletType::Kettle => Type::Kettle,
        OutletType::Light => Type::Light,
        OutletType::Charger => Type::Outlet,
    }
}

impl IkeaOutlet {
    pub closed spec fn config(&self) -> Config {
        self.config
    }

    /// The state the outlet last reported.
    pub closed spec fn last_known_state(&self) -> bool {
        self.state.last_known_state
    }

    /// Whether a switch-off timer is running.
    pub closed spec fn timer_running(&self) -> bool {
        self.state.timer_running
    }

    /// A new outlet, believed off, with no timer.
    pub fn new(config: Config) -> (res: Self)
        ensures
            res.config() == config,
            !res.last_known_state(),
            !res.timer_running(),
    {
        IkeaOutlet { config, state: State { last_known_state: false, timer_running: false } }
    }

    pub fn get_id(&self) -> (res: String)
        ensures
            res == self.config().info.identifier,
    {
        self.config.info.identifier()
    }

    /// The topic on which requests to the outlet are published.
    pub fn set_topic(&self) -> (res: String)
        ensures
            res@ == self.config().mqtt.topic@ + "/set"@,
    {
        let mut topic = self.config.mqtt.topic.clone();
        topic.append("/set");
        topic
    }

    /// Handles a state report of the outlet on `topic`; `parsed` is its
    /// payload decoded. When the reported state differs from the last one,
    /// a running timer is stopped, the state is recorded, and if the outlet
    /// went on and has a timeout, a new timer starts.
    pub fn on_mqtt(&mut self, topic: &str, parsed: Result<OnOffMessage, ParseError>) -> (res: Vec<
        OutletCommand,
    >)
        requires
            matchable_topic(topic@),
        ensures
            final(self).config() == old(self).config(),
            ({
                let changes = mqtt_topic_matches(topic@, old(self).config().mqtt.topic@) && (
                parsed matches Ok(m) && (m.state@ == "ON"@) != old(self).last_known_state());
                let on = parsed matches Ok(m) && m.state@ == "ON"@;
                if changes {
                    &&& final(self).last_known_state() == on
                    &&& if on && old(self).config().timeout is Some {
                        &&& res@ == seq![
                            OutletCommand::StopTimer,
                            OutletCommand::StopTimer,
                            OutletCommand::StartTimer(old(self).config().timeout->0),
                        ]
                        &&& final(self).timer_running()
                    } else {
                        &&& res@ == seq![OutletCommand::StopTimer]
                        &&& !final(self).timer_running()
                    }
                } else {
                    &&& final(self).last_known_state() == old(self).last_known_state()
                    &&& final(self).timer_running() == old(self).timer_running()
                    &&& res@.len() == 0
                }
            }),
    {
        let mut commands: Vec<OutletCommand> = Vec::new();
        if !topic_matches(topic, self.config.mqtt.topic.as_str()) {
            return commands;
        }
        let state = match parsed {
            Ok(msg) => msg.state(),
            Err(_) => {
                return commands;
            },
        };
        if state == self.state.last_known_state {
            return commands;
        }
        commands.append(&mut self.stop_timeout());
        self.state.last_known_state = state;
        if state {
            if let Some(timeout) = self.config.timeout {
                commands.append(&mut self.start_timeout(timeout));
            }
        }
        commands
    }

    /// The Google Home type of this outlet.
    pub fn get_device_type(&self) -> (res: Type)
        ensures
            res == outlet_device_type(self.config().outlet_type),
    {
        match self.config.outlet_type {
            OutletType::Outlet => Type::Outlet,
            OutletType::Kettle => Type::Kettle,
            OutletType::Light => Type::Light,
            OutletType::Charger => Type::Outlet,
        }
    }

    pub fn get_device_name(&self) -> (res: Name)
        ensures
            res.name@ == self.config().info.name@,
            res.default_names@.len() == 0,
            res.nicknames@.len() == 0,
    {
        Name::new(self.config.info.name.as_str())
    }

    pub fn is_online(&self) -> (res: bool)
        ensures
            res,
    {
        true
    }

    pub fn get_room_hint(&self) -> (res: Option<&str>)
        ensures
            match self.config().info.room {
                Some(r) => res matches Some(h) && h@ == r@,
                None => res is None,
            },
    {
        match &self.config.info.room {
            Some(r) => Some(r.as_str()),
            None => None,
        }
    }

    pub fn will_report_state(&self) -> (res: bool)
        ensures
            !res,
    {
        false
    }

    /// Whether the outlet is on, as it last reported.
    pub fn on(&self) -> (res: bool)
        ensures
            res == self.last_known_state(),
    {
        self.state.last_known_state
    }

    /// The request that switches the outlet: the message to publish on
    /// `set_topic`.
    pub fn set_on(&self, on: bool) -> (res: OnOffMessage)
        ensures
            res.state@ == crate::messages::on_off_text(on),
    {
        OnOffMessage::new(on)
    }
}

impl Timeout for IkeaOutlet {
    type Command = OutletCommand;

    fn start_timeout(&mut self, timeout: u64) -> (res: Vec<OutletCommand>)
        ensures
            res@ == seq![OutletCommand::StopTimer, OutletCommand::StartTimer(timeout)],
            final(self).timer_running(),
            final(self).config() == old(self).config(),
            final(self).last_known_state() == old(self).last_known_state(),
    {
        let mut commands = self.stop_timeout();
        commands.push(OutletCommand::StartTimer(timeout));
        self.state.timer_running = true;
        commands
    }

    fn stop_timeout(&mut self) -> (res: Vec<OutletCommand>)
        ensures
            res@ == seq![OutletCommand::StopTimer],
            !final(self).timer_running(),
            final(self).config() == old(self).config(),
            final(self).last_known_state() == old(self).last_known_state(),
    {
        self.state.timer_running = false;
        let mut commands: Vec<OutletCommand> = Vec::new();
        commands.push(OutletCommand::StopTimer);
        commands
    }
}

impl OnPresence for IkeaOutlet {
    type Action = Option<OutletCommand>;

    /// When everybody leaves, the outlet is switched off, unless a charger
    /// is plugged into it.
    fn on_presence(&mut self, presence: bool) -> (res: Option<OutletCommand>)
        ensures
            *final(self) == *old(self),
            res == (if !presence && old(self).config().outlet_type != OutletType::Charger {
                Some(OutletCommand::SetOn(false))
            } else {
                None
            }),
    {
        if !presence && self.config.outlet_type != OutletType::Charger {
            Some(OutletCommand::SetOn(false))
        } else {
            None
        }
    }
}

} // verus!
