//! A door or window contact sensor. Opening it can switch lights on (and
//! closing it switch them off again, directly or after a timeout, unless
//! they were on before), and a front door can act as a presence device:
//! opening it marks somebody home, closing it starts a timer after which
//! that mark is removed.
use vstd::prelude::*;
use crate::config::MqttDeviceConfig;
use crate::devices::DeviceRef;
use crate::devices::presence::DEFAULT_PRESENCE;
use crate::error::{DeviceConfigError, ParseError};
use crate::event::OnPresence;
use crate::messages::ContactMessage;
use crate::mqtt::{matchable_topic, mqtt_topic_matches, topic_matches};
use crate::text::owned;

verus! {

/// The contact sensor as a presence device: the topic on which it reports
/// presence, and how long (in seconds) after the door closed the presence
/// is removed.
pub struct PresenceDeviceConfig {
    pub mqtt: MqttDeviceConfig,
    pub timeout: u64,
}

/// The lights that opening the contact switches on; with a timeout (in
/// seconds) they switch themselves off that long after closing, without one
/// they are switched off directly.
pub struct TriggerConfig {
    pub devices: Vec<DeviceRef>,
    pub timeout: Option<u64>,
}

/// Configuration of a contact sensor.
pub struct Config {
    pub identifier: String,
    pub mqtt: MqttDeviceConfig,
    pub presence: Option<PresenceDeviceConfig>,
    pub trigger: Option<TriggerConfig>,
}

/// A request to one of the trigger lights, by its index in the
/// configuration.
#[derive(PartialEq, Eq, Structural, Debug)]
pub enum LightCommand {
    SetOn(usize, bool),
    StartTimeout(usize, u64),
}

/// A request about the presence the sensor reports.
pub enum PresenceCommand {
    /// Abort the timer that would remove the presence.
    StopTimer,
    /// Publish that somebody is present on this topic.
    PublishPresent(String),
    /// After `timeout` seconds, publish an empty message on `topic`,
    /// removing the presence.
    StartTimer { topic: String, timeout: u64 },
}

/// What a contact change asks of the world.
pub struct ContactActions {
    pub lights: Vec<LightCommand>,
    pub presence: Vec<PresenceCommand>,
}

struct State {
    overall_presence: bool,
    is_closed: bool,
    previous: Vec<bool>,
    timer_running: bool,
}

/// A contact sensor.
pub struct ContactSensor {
    config: Config,
    state: State,
}

/// The commands that switch all trigger lights on.
pub open spec fn open_light_commands(n: nat) -> Seq<LightCommand> {
    Seq::new(n, |i: int| LightCommand::SetOn(i as usize, true))
}

/// The command for light `i` when the contact closes: lights that were off
/// before the contact opened are switched off, directly without a timeout,
/// through their own timer with one.
pub open spec fn close_light_command(
    devices: Seq<DeviceRef>,
    previous: Seq<bool>,
    timeout: Option<u64>,
    i: int,
) -> Seq<LightCommand> {
    if previous[i] {
        seq![]
    } else if timeout is None && devices[i].on_off {
        seq![LightCommand::SetOn(i as usize, false)]
    } else if timeout is Some && devices[i].timeout {
        seq![LightCommand::StartTimeout(i as usize, timeout->0)]
    } else {
        seq![]
    }
}

/// The commands for the first `n` lights when the contact closes.
pub open spec fn close_light_commands(
    devices: Seq<DeviceRef>,
    previous: Seq<bool>,
    timeout: Option<u64>,
    n: nat,
) -> Seq<LightCommand>
    decreases n,
{
    if n == 0 {
        seq![]
    } else {
        close_light_commands(devices, previous, timeout, (n - 1) as nat) + close_light_command(
            devices,
            previous,
            timeout,
            n - 1,
        )
    }
}

/// Whether every light can be switched and, when a timeout is configured,
/// has a timer of its own.
pub open spec fn switchable(devices: Seq<DeviceRef>, timeout: Option<u64>) -> bool {
    forall|i: int|
        #![trigger devices[i]]
        0 <= i < devices.len() ==> devices[i].on_off && (timeout is None || devices[i].timeout)
}

/// Whether a light command switches light `i` off, directly or through its
/// timer.
pub open spec fn command_switches_off(command: LightCommand, i: int) -> bool {
    match command {
        LightCommand::SetOn(j, on) => j == i && !on,
        LightCommand::StartTimeout(j, _) => j == i,
    }
}

/// Whether some command of `commands` switches light `i` off.
pub open spec fn switches_off(commands: Seq<LightCommand>, i: int) -> bool {
    exists|k: int| 0 <= k < commands.len() && command_switches_off(#[trigger] commands[k], i)
}

/// Closing the contact undoes opening it: the lights switched off on closing
/// are exactly those that were off when the contact opened (`on_mqtt`
/// records that as `previous`). This holds where every light can be
/// switched and, when a timeout is configured, has a timer of its own.
pub proof fn lemma_close_undoes_open(devices: Seq<DeviceRef>, previous: Seq<bool>, timeout: Option<u64>)
    requires
        previous.len() == devices.len(),
        devices.len() <= usize::MAX,
        switchable(devices, timeout),
    ensures
        forall|i: int|
            0 <= i < devices.len() ==> (switches_off(
                close_light_commands(devices, previous, timeout, devices.len()),
                i,
            ) <==> !previous[i]),
{
    lemma_close_prefix(devices, previous, timeout, devices.len());
}

proof fn lemma_close_prefix(devices: Seq<DeviceRef>, previous: Seq<bool>, timeout: Option<u64>, m: nat)
    requires
        m <= devices.len(),
        previous.len() == devices.len(),
        devices.len() <= usize::MAX,
        switchable(devices, timeout),
    ensures
        forall|i: int|
            0 <= i < devices.len() ==> (#[trigger] switches_off(
                close_light_commands(devices, previous, timeout, m),
                i,
            ) <==> (i < m && !previous[i])),
    decreases m,
{
    if m > 0 {
        let k = m - 1;
        lemma_close_prefix(devices, previous, timeout, k as nat);
        let a = close_light_commands(devices, previous, timeout, k as nat);
        let b = close_light_command(devices, previous, timeout, k);
        let all = close_light_commands(devices, previous, timeout, m);
        assert(all == a + b);
        assert(devices[k].on_off);
        assert forall|i: int| 0 <= i < devices.len() implies (switches_off(all, i) <==> (i < m
            && !previous[i])) by {
            if switches_off(all, i) {
                assert(i < m && !previous[i]) by {
                let w = choose|w: int| 0 <= w < all.len() && command_switches_off(#[trigger] all[w], i);
                if w < a.len() {
                    assert(all[w] == a[w]);
                    assert(switches_off(a, i));
                    assert(i < k && !previous[i]);
                } else {
                    assert(all[w] == b[w - a.len()]);
                    assert(b.len() > 0);
                    assert(!previous[k]);
                    if timeout is None {
                        assert(b[0] == LightCommand::SetOn(k as usize, false));
                    } else {
                        assert(b[0] == LightCommand::StartTimeout(k as usize, timeout->0));
                    }
                    assert(w - a.len() == 0);
                    assert(i == k);
                }
                }
            }
            if i < m && !previous[i] {
                if i < k {
                    assert(switches_off(a, i));
                    let w = choose|w: int| 0 <= w < a.len() && command_switches_off(#[trigger] a[w], i);
                    assert(all[w] == a[w]);
                } else {
                    assert(b.len() == 1);
                    assert(all[a.len() as int] == b[0]);
                    assert(command_switches_off(all[a.len() as int], i));
                }
                assert(switches_off(all, i));
            }
        }
    }
}

impl ContactSensor {
    pub closed spec fn config(&self) -> Config {
        self.config
    }

    /// Whether the contact is closed.
    pub closed spec fn closed(&self) -> bool {
        self.state.is_closed
    }

    /// The presence of the house as last told.
    pub closed spec fn overall_presence(&self) -> bool {
        self.state.overall_presence
    }

    /// For each trigger light, whether it was on when the contact opened.
    pub closed spec fn previous(&self) -> Seq<bool> {
        self.state.previous@
    }

    /// Whether a timer that removes the presence may be running.
    pub closed spec fn timer_running(&self) -> bool {
        self.state.timer_running
    }

    /// The number of trigger lights.
    pub open spec fn num_lights(&self) -> nat {
        match self.config().trigger {
            Some(t) => t.devices@.len(),
            None => 0,
        }
    }

    pub closed spec fn wf(&self) -> bool {
        &&& self.state.previous@.len() == self.num_lights()
        &&& self.config.trigger matches Some(t) ==> forall|i: int|
            0 <= i < t.devices@.len() ==> #[trigger] t.devices@[i].on_off
    }

    /// A well-formed sensor remembers one state per trigger light, and each
    /// of its trigger lights can be switched.
    pub proof fn lemma_previous_len(&self)
        requires
            self.wf(),
        ensures
            self.previous().len() == self.num_lights(),
            self.config().trigger matches Some(t) ==> forall|i: int|
                0 <= i < t.devices@.len() ==> #[trigger] t.devices@[i].on_off,
    {
    }

    /// Whether every trigger light can be switched, and, where no timeout is
    /// configured, has a timer of its own.
    pub open spec fn trigger_ok(trigger: TriggerConfig) -> bool {
        forall|i: int|
            #![trigger trigger.devices@[i]]
            0 <= i < trigger.devices@.len() ==> trigger.devices@[i].on_off && (trigger.timeout
                is Some || trigger.devices@[i].timeout)
    }

    /// Sets up a contact sensor, checking that each trigger light can be
    /// switched and, where no timeout is configured, has a timer of its own.
    /// The first light that lacks one is reported.
    pub fn create(config: Config) -> (res: Result<Self, DeviceConfigError>)
        ensures
            match res {
                Ok(s) => {
                    &&& s.wf()
                    &&& s.config() == config
                    &&& s.closed()
                    &&& s.overall_presence() == DEFAULT_PRESENCE
                    &&& !s.timer_running()
                    &&& s.previous() == Seq::new(s.num_lights(), |i: int| false)
                    &&& config.trigger matches Some(t) ==> Self::trigger_ok(t)
                },
                Err(DeviceConfigError::MissingTrait(id, t)) => config.trigger matches Some(trigger)
                    && exists|i: int|
                    0 <= i < trigger.devices@.len() && id == trigger.devices@[i].id && (forall|
                        j: int,
                    |
                        #![trigger trigger.devices@[j]]
                        0 <= j < i ==> trigger.devices@[j].on_off && (trigger.timeout is Some
                            || trigger.devices@[j].timeout)) && if !trigger.devices@[i].on_off {
                        t@ == "OnOff"@
                    } else {
                        trigger.timeout is None && !trigger.devices@[i].timeout && t@ == "Timeout"@
                    },
                Err(_) => false,
            },
    {
        let mut previous: Vec<bool> = Vec::new();
        if let Some(trigger) = &config.trigger {
            let n = trigger.devices.len();
            let mut i: usize = 0;
            while i < n
                invariant
                    config.trigger == Some(*trigger),
                    n == trigger.devices@.len(),
                    i <= n,
                    previous@ == Seq::new(i as nat, |j: int| false),
                    forall|j: int|
                        #![trigger trigger.devices@[j]]
                        0 <= j < i ==> trigger.devices@[j].on_off && (trigger.timeout is Some
                            || trigger.devices@[j].timeout),
                decreases n - i,
            {
                let device = &trigger.devices[i];
                if !device.on_off {
                    let res = Err(DeviceConfigError::MissingTrait(device.id.clone(), owned("OnOff")));
                    assert(0 <= i < trigger.devices@.len() && device.id == trigger.devices@[i as int].id);
                    return res;
                }
                if trigger.timeout.is_none() && !device.timeout {
                    let res = Err(DeviceConfigError::MissingTrait(device.id.clone(), owned("Timeout")));
                    assert(0 <= i < trigger.devices@.len() && device.id == trigger.devices@[i as int].id);
                    return res;
                }
                assert(trigger.devices@[i as int].on_off && (trigger.timeout is Some
                    || trigger.devices@[i as int].timeout));
                previous.push(false);
                i = i + 1;
                assert(previous@ =~= Seq::new(i as nat, |j: int| false));
            }
        }
        let res = ContactSensor {
            config,
            state: State {
                overall_presence: DEFAULT_PRESENCE,
                is_closed: true,
                previous,
                timer_running: false,
            },
        };
        assert(res.previous() =~= Seq::new(res.num_lights(), |i: int| false));
        Ok(res)
    }

    pub fn get_id(&self) -> (res: String)
        ensures
            res == self.config().identifier,
    {
        self.config.identifier.clone()
    }

    /// Whether the contact is closed.
    pub fn is_closed(&self) -> (res: bool)
        ensures
            res == self.closed(),
    {
        self.state.is_closed
    }

    /// Whether a message on `topic` that decodes to `parsed` changes the
    /// contact.
    pub open spec fn changes(&self, topic: Seq<char>, parsed: Result<ContactMessage, ParseError>) -> bool {
        &&& mqtt_topic_matches(topic, self.config().mqtt.topic@)
        &&& parsed matches Ok(m) && m.contact != self.closed()
    }

    /// Whether a message on `topic` that decodes to `parsed` opens the
    /// contact: the only case in which `on_mqtt` reads the lights' states.
    pub fn opens(&self, topic: &str, parsed: &Result<ContactMessage, ParseError>) -> (res: bool)
        requires
            matchable_topic(topic@),
        ensures
            res == (self.changes(topic@, *parsed) && !parsed->Ok_0.contact),
    {
        match parsed {
            Ok(m) => !m.contact && self.state.is_closed && topic_matches(topic, self.config.mqtt.topic.as_str()),
            Err(_) => false,
        }
    }

    /// Handles a contact report on `topic`; `parsed` is its payload decoded,
    /// and `lights_on` says for each trigger light whether it is on now (it
    /// is only read when the contact opens). When the contact changes: on
    /// opening, the lights' states are remembered and all lights switched
    /// on, and a presence device aborts its removal timer and, if nobody is
    /// known to be home, publishes presence; on closing, the lights that
    /// were off are switched off (or their timers started), and a presence
    /// device starts the timer that removes its presence.
    pub fn on_mqtt(
        &mut self,
        topic: &str,
        parsed: Result<ContactMessage, ParseError>,
        lights_on: &Vec<bool>,
    ) -> (res: ContactActions)
        requires
            old(self).wf(),
            matchable_topic(topic@),
            lights_on@.len() == old(self).num_lights(),
        ensures
            final(self).wf(),
            final(self).config() == old(self).config(),
            final(self).overall_presence() == old(self).overall_presence(),
            !old(self).changes(topic@, parsed) ==> {
                &&& final(self).closed() == old(self).closed()
                &&& final(self).previous() == old(self).previous()
                &&& final(self).timer_running() == old(self).timer_running()
                &&& res.lights@.len() == 0
                &&& res.presence@.len() == 0
            },
            old(self).changes(topic@, parsed) ==> {
                let closed = parsed->Ok_0.contact;
                &&& final(self).closed() == closed
                &&& final(self).previous() == (if !closed && old(self).config().trigger is Some {
                    lights_on@
                } else {
                    old(self).previous()
                })
                &&& res.lights@ == match old(self).config().trigger {
                    Some(t) => if !closed {
                        open_light_commands(t.devices@.len())
                    } else {
                        close_light_commands(
                            t.devices@,
                            old(self).previous(),
                            t.timeout,
                            t.devices@.len(),
                        )
                    },
                    None => seq![],
                }
                &&& match old(self).config().presence {
                    None => {
                        &&& res.presence@.len() == 0
                        &&& final(self).timer_running() == old(self).timer_running()
                    },
                    Some(p) => if !closed {
                        let stop: Seq<PresenceCommand> = if old(self).timer_running() {
                            seq![PresenceCommand::StopTimer]
                        } else {
                            seq![]
                        };
                        &&& !final(self).timer_running()
                        &&& if old(self).overall_presence() {
                            res.presence@ == stop
                        } else {
                            &&& res.presence@.len() == stop.len() + 1
                            &&& res.presence@.take(stop.len() as int) == stop
                            &&& res.presence@.last() matches PresenceCommand::PublishPresent(t)
                                && t@ == p.mqtt.topic@
                        }
                    } else {
                        &&& final(self).timer_running()
                        &&& res.presence@.len() == 1
                        &&& res.presence@[0] matches PresenceCommand::StartTimer { topic, timeout }
                            && topic@ == p.mqtt.topic@ && timeout == p.timeout
                    },
                }
            },
    {
        let mut actions = ContactActions { lights: Vec::new(), presence: Vec::new() };
        if !topic_matches(topic, self.config.mqtt.topic.as_str()) {
            return actions;
        }
        let is_closed = match parsed {
            Ok(state) => state.is_closed(),
            Err(_) => {
                return actions;
            },
        };
        if is_closed == self.state.is_closed {
            return actions;
        }
        self.state.is_closed = is_closed;

        if let Some(trigger) = &self.config.trigger {
            if !is_closed {
                actions.lights = Self::open_commands(trigger.devices.len());
                self.state.previous = lights_on.clone();
            } else {
                actions.lights = Self::close_commands(trigger, &self.state.previous);
            }
        }

        let presence = match &self.config.presence {
            Some(presence) => presence,
            None => {
                return actions;
            },
        };
        if !is_closed {
            if self.state.timer_running {
                actions.presence.push(PresenceCommand::StopTimer);
                self.state.timer_running = false;
            }
            if !self.state.overall_presence {
                actions.presence.push(PresenceCommand::PublishPresent(presence.mqtt.topic.clone()));
            }
        } else {
            actions.presence.push(
                PresenceCommand::StartTimer {
                    topic: presence.mqtt.topic.clone(),
                    timeout: presence.timeout,
                },
            );
            self.state.timer_running = true;
        }
        actions
    }

    fn open_commands(n: usize) -> (res: Vec<LightCommand>)
        ensures
            res@ == open_light_commands(n as nat),
    {
        let mut lights: Vec<LightCommand> = Vec::new();
        let mut i: usize = 0;
        while i < n
            invariant
                i <= n,
                lights@ =~= open_light_commands(n as nat).take(i as int),
            decreases n - i,
        {
            lights.push(LightCommand::SetOn(i, true));
            i = i + 1;
            assert(lights@ =~= open_light_commands(n as nat).take(i as int));
        }
        assert(lights@ =~= open_light_commands(n as nat));
        lights
    }

    fn close_commands(trigger: &TriggerConfig, previous: &Vec<bool>) -> (res: Vec<LightCommand>)
        requires
            previous@.len() == trigger.devices@.len(),
        ensures
            res@ == close_light_commands(
                trigger.devices@,
                previous@,
                trigger.timeout,
                trigger.devices@.len(),
            ),
    {
        let n = trigger.devices.len();
        let mut lights: Vec<LightCommand> = Vec::new();
        let mut i: usize = 0;
        while i < n
            invariant
                n == trigger.devices@.len(),
                i <= n,
                previous@.len() == n,
                lights@ =~= close_light_commands(trigger.devices@, previous@, trigger.timeout, i as nat),
            decreases n - i,
        {
            if !previous[i] {
                if trigger.timeout.is_none() && trigger.devices[i].on_off {
                    lights.push(LightCommand::SetOn(i, false));
                } else if trigger.timeout.is_some() && trigger.devices[i].timeout {
                    lights.push(LightCommand::StartTimeout(i, *trigger.timeout.as_ref().unwrap()));
                }
            }
            i = i + 1;
        }
        lights
    }
}

impl OnPresence for ContactSensor {
    type Action = ();

    /// Remembers the presence of the house.
    fn on_presence(&mut self, presence: bool)
        ensures
            final(self).overall_presence() == presence,
            final(self).config() == old(self).config(),
            final(self).closed() == old(self).closed(),
            final(self).previous() == old(self).previous(),
            final(self).timer_running() == old(self).timer_running(),
            final(self).wf() == old(self).wf(),
    {
        self.state.overall_presence = presence;
    }
}

} // verus!
