//! A group of Philips Hue lights, switched with remotes through the Hue
//! bridge's HTTP API. Switching uses a scene to turn on; the bridge's timer
//! (a schedule) switches the group off after a timeout.
use vstd::prelude::*;
use vstd::string::*;
use crate::config::MqttDeviceConfig;
use crate::error::ParseError;
use crate::messages::{RemoteAction, RemoteMessage};
use crate::text::{decimal, owned, push_decimal_2, push_decimal, push_signed_decimal,
    push_socket_addr_v4, signed_decimal, socket_addr_v4_text};
use crate::traits::Timeout as TimeoutTrait;

verus! {

/// The port of the bridge's HTTP API.
pub const HUE_PORT: u16 = 80;

/// Configuration of a Hue group.
pub struct HueGroupConfig {
    pub ip: [u8; 4],
    pub login: String,
    pub group_id: isize,
    pub timer_id: isize,
    pub scene_id: String,
    pub remotes: Vec<MqttDeviceConfig>,
}

/// The body of a request that changes the group's lights: either switch
/// them (`on`) or recall a scene.
pub struct Action {
    pub on: Option<bool>,
    pub scene: Option<String>,
}

impl Action {
    pub fn on(on: bool) -> (res: Self)
        ensures
            res.on == Some(on),
            res.scene is None,
    {
        Action { on: Some(on), scene: None }
    }

    pub fn scene(scene: String) -> (res: Self)
        ensures
            res.on is None,
            res.scene == Some(scene),
    {
        Action { on: None, scene: Some(scene) }
    }
}

/// Whether all or any of the group's lights are on.
pub struct State {
    pub all_on: bool,
    pub any_on: bool,
}

/// What the bridge tells of a group.
pub struct Info {
    pub state: State,
}

impl Info {
    pub fn any_on(&self) -> (res: bool)
        ensures
            res == self.state.any_on,
    {
        self.state.any_on
    }
}

/// The body of a request that arms (with a timeout in seconds) or disarms
/// the bridge's timer.
pub struct Timeout {
    pub timeout: Option<u64>,
}

/// The "PTHH:MM:SS" time of a timeout in seconds; the hours are padded to
/// at least two digits, minutes and seconds to exactly two.
pub open spec fn local_time_text(seconds: nat) -> Seq<char> {
    "PT"@ + two_digits(seconds / 3600) + ":"@ + two_digits((seconds / 60) % 60) + ":"@
        + two_digits(seconds % 60)
}

/// A number with at least two digits.
pub open spec fn two_digits(n: nat) -> Seq<char> {
    if n < 10 { seq!['0'] + decimal(n) } else { decimal(n) }
}

impl Timeout {
    pub fn new(timeout: Option<u64>) -> (res: Self)
        ensures
            res.timeout == timeout,
    {
        Timeout { timeout }
    }

    /// "enabled" when armed, "disabled" otherwise.
    pub fn status(&self) -> (res: String)
        ensures
            res@ == (if self.timeout is Some { "enabled"@ } else { "disabled"@ }),
    {
        if self.timeout.is_some() {
            owned("enabled")
        } else {
            owned("disabled")
        }
    }

    /// The time at which the armed timer fires, relative to now.
    pub fn localtime(&self) -> (res: Option<String>)
        ensures
            match self.timeout {
                Some(t) => res matches Some(s) && s@ == local_time_text(t as nat),
                None => res is None,
            },
    {
        match self.timeout {
            Some(t) => {
                let seconds = t % 60;
                let minutes = (t / 60) % 60;
                let hours = t / 3600;
                let mut time = owned("PT");
                push_decimal_2(&mut time, hours);
                time.append(":");
                push_decimal_2(&mut time, minutes);
                time.append(":");
                push_decimal_2(&mut time, seconds);
                Some(time)
            },
            None => None,
        }
    }
}

/// A request to the bridge: where it goes and what it carries.
pub enum HueRequest {
    /// PUT a timer change to the schedule URL.
    Schedule { url: String, timer: Timeout },
    /// PUT a light change to the group's action URL.
    Action { url: String, action: Action },
}

/// A group of Hue lights.
pub struct HueGroup {
    identifier: String,
    config: HueGroupConfig,
}

/// The base URL of the bridge's API for this login.
pub open spec fn url_base_text(config: HueGroupConfig) -> Seq<char> {
    "http://"@ + socket_addr_v4_text(config.ip@, HUE_PORT) + "/api/"@ + config.login@
}

impl HueGroupConfig {
    /// A group with the given id and this configuration.
    pub fn create(&self, identifier: &str) -> (res: HueGroup)
        ensures
            res.identifier()@ == identifier@,
            res.config().same_as(*self),
    {
        HueGroup { identifier: owned(identifier), config: self.clone_config() }
    }

    /// Equal field by field, the remotes as sequences.
    pub open spec fn same_as(self, other: Self) -> bool {
        &&& self.ip == other.ip
        &&& self.login == other.login
        &&& self.group_id == other.group_id
        &&& self.timer_id == other.timer_id
        &&& self.scene_id == other.scene_id
        &&& self.remotes@ == other.remotes@
    }

    fn clone_config(&self) -> (res: Self)
        ensures
            res.same_as(*self),
    {
        let n = self.remotes.len();
        let mut remotes: Vec<MqttDeviceConfig> = Vec::new();
        let mut i: usize = 0;
        while i < n
            invariant
                n == self.remotes@.len(),
                i <= n,
                remotes@ =~= self.remotes@.take(i as int),
            decreases n - i,
        {
            remotes.push(MqttDeviceConfig { topic: self.remotes[i].topic.clone() });
            i = i + 1;
            assert(remotes@ =~= self.remotes@.take(i as int));
        }
        assert(remotes@ =~= self.remotes@);
        HueGroupConfig {
            ip: self.ip,
            login: self.login.clone(),
            group_id: self.group_id,
            timer_id: self.timer_id,
            scene_id: self.scene_id.clone(),
            remotes,
        }
    }
}

impl HueGroup {
    pub closed spec fn identifier(&self) -> String {
        self.identifier
    }

    pub closed spec fn config(&self) -> HueGroupConfig {
        self.config
    }

    pub fn get_id(&self) -> (res: &str)
        ensures
            res@ == self.identifier()@,
    {
        self.identifier.as_str()
    }

    pub fn url_base(&self) -> (res: String)
        ensures
            res@ == url_base_text(self.config()),
    {
        let mut url = owned("http://");
        push_socket_addr_v4(&mut url, self.config.ip, HUE_PORT);
        url.append("/api/");
        url.append(self.config.login.as_str());
        url
    }

    pub fn url_set_schedule(&self) -> (res: String)
        ensures
            res@ == url_base_text(self.config()) + "/schedules/"@ + signed_decimal(
                self.config().timer_id as int,
            ),
    {
        let mut url = self.url_base();
        url.append("/schedules/");
        push_signed_decimal(&mut url, self.config.timer_id);
        url
    }

    pub fn url_set_action(&self) -> (res: String)
        ensures
            res@ == url_base_text(self.config()) + "/groups/"@ + signed_decimal(
                self.config().group_id as int,
            ) + "/action"@,
    {
        let mut url = self.url_get_state();
        url.append("/action");
        url
    }

    pub fn url_get_state(&self) -> (res: String)
        ensures
            res@ == url_base_text(self.config()) + "/groups/"@ + signed_decimal(
                self.config().group_id as int,
            ),
    {
        let mut url = self.url_base();
        url.append("/groups/");
        push_signed_decimal(&mut url, self.config.group_id);
        url
    }

    /// The topics of the remotes that switch the group.
    pub fn topics(&self) -> (res: Vec<&str>)
        ensures
            res@.len() == self.config().remotes@.len(),
            forall|i: int|
                0 <= i < res@.len() ==> #[trigger] res@[i]@ == self.config().remotes@[i].topic@,
    {
        let n = self.config.remotes.len();
        let mut topics: Vec<&str> = Vec::new();
        let mut i: usize = 0;
        while i < n
            invariant
                n == self.config.remotes@.len(),
                i <= n,
                topics@.len() == i,
                forall|j: int| 0 <= j < i ==> #[trigger] topics@[j]@ == self.config.remotes@[j].topic@,
            decreases n - i,
        {
            topics.push(self.config.remotes[i].topic.as_str());
            i = i + 1;
        }
        topics
    }

    /// Handles a message of a remote: on and up switch the group on, off and
    /// down switch it off, and stop is ignored.
    pub fn on_mqtt(&mut self, parsed: Result<RemoteMessage, ParseError>) -> (res: Vec<HueRequest>)
        ensures
            final(self).config() == old(self).config(),
            final(self).identifier() == old(self).identifier(),
            match parsed {
                Ok(m) => match m.action {
                    RemoteAction::On | RemoteAction::BrightnessMoveUp => old(self).switch_requests(
                        true,
                        res@,
                    ),
                    RemoteAction::Off | RemoteAction::BrightnessMoveDown => old(self).switch_requests(
                        false,
                        res@,
                    ),
                    RemoteAction::BrightnessStop => res@.len() == 0,
                },
                Err(_) => res@.len() == 0,
            },
    {
        let action = match parsed {
            Ok(message) => message.action(),
            Err(_) => {
                return Vec::new();
            },
        };
        match action {
            RemoteAction::On | RemoteAction::BrightnessMoveUp => self.set_on(true),
            RemoteAction::Off | RemoteAction::BrightnessMoveDown => self.set_on(false),
            RemoteAction::BrightnessStop => Vec::new(),
        }
    }

    /// Whether `requests` switch the group: first the timer is disarmed,
    /// then the scene is recalled (on) or the lights are switched off.
    pub open spec fn switch_requests(&self, on: bool, requests: Seq<HueRequest>) -> bool {
        &&& requests.len() == 2
        &&& requests[0] matches HueRequest::Schedule { url, timer: body } && url@ == url_base_text(
            self.config(),
        ) + "/schedules/"@ + signed_decimal(self.config().timer_id as int) && body.timeout is None
        &&& requests[1] matches HueRequest::Action { url, action: body } && url@ == url_base_text(
            self.config(),
        ) + "/groups/"@ + signed_decimal(self.config().group_id as int) + "/action"@ && if on {
            body.on is None && body.scene == Some(self.config().scene_id)
        } else {
            body.on == Some(false) && body.scene is None
        }
    }

    /// The requests that switch the group on or off.
    pub fn set_on(&mut self, on: bool) -> (res: Vec<HueRequest>)
        ensures
            final(self).config() == old(self).config(),
            final(self).identifier() == old(self).identifier(),
            old(self).switch_requests(on, res@),
    {
        let mut requests = self.stop_timeout();
        let message = if on {
            Action::scene(self.config.scene_id.clone())
        } else {
            Action::on(false)
        };
        requests.push(HueRequest::Action { url: self.url_set_action(), action: message });
        requests
    }
}

impl HueGroup {
    /// Whether any light of the group is on, from the bridge's decoded
    /// answer; without one, the group counts as off.
    pub fn is_on_from_reply(reply: Option<Info>) -> (res: Result<bool, crate::google_home::errors::ErrorCode>)
        ensures
            res == Ok::<bool, crate::google_home::errors::ErrorCode>(
                match reply {
                    Some(info) => info.state.any_on,
                    None => false,
                },
            ),
    {
        match reply {
            Some(info) => Ok(info.any_on()),
            None => Ok(false),
        }
    }
}

impl TimeoutTrait for HueGroup {
    type Command = HueRequest;

    /// Disarms the timer, then arms it with the timeout.
    fn start_timeout(&mut self, timeout: u64) -> (res: Vec<HueRequest>)
        ensures
            final(self).config() == old(self).config(),
            final(self).identifier() == old(self).identifier(),
            res@.len() == 2,
            res@[0] matches HueRequest::Schedule { url, timer: body } && url@ == url_base_text(
                old(self).config(),
            ) + "/schedules/"@ + signed_decimal(old(self).config().timer_id as int)
                && body.timeout is None,
            res@[1] matches HueRequest::Schedule { url, timer: body } && url@ == url_base_text(
                old(self).config(),
            ) + "/schedules/"@ + signed_decimal(old(self).config().timer_id as int)
                && body.timeout == Some(timeout),
    {
        let mut requests = self.stop_timeout();
        requests.push(
            HueRequest::Schedule { url: self.url_set_schedule(), timer: Timeout::new(Some(timeout)) },
        );
        requests
    }

    /// Disarms the timer.
    fn stop_timeout(&mut self) -> (res: Vec<HueRequest>)
        ensures
            final(self).config() == old(self).config(),
            final(self).identifier() == old(self).identifier(),
            res@.len() == 1,
            res@[0] matches HueRequest::Schedule { url, timer: body } && url@ == url_base_text(
                old(self).config(),
            ) + "/schedules/"@ + signed_decimal(old(self).config().timer_id as int)
                && body.timeout is None,
    {
        let mut requests: Vec<HueRequest> = Vec::new();
        requests.push(HueRequest::Schedule { url: self.url_set_schedule(), timer: Timeout::new(None) });
        requests
    }
}

} // verus!
