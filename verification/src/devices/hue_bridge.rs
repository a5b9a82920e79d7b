//! The Hue bridge as a sink for the house's presence and darkness: each is
//! mirrored into a flag sensor on the bridge, so the bridge's own rules can
//! use them.
use vstd::prelude::*;
use vstd::string::*;
use crate::event::{OnDarkness, OnPresence};
use crate::text::{owned, push_signed_decimal, push_socket_addr_v4, signed_decimal, socket_addr_v4_text};

verus! {

/// The port of the bridge's HTTP API.
pub const HUE_BRIDGE_PORT: u16 = 80;

/// Which flag sensor to set.
#[derive(Clone, Copy, PartialEq, Eq, Structural, Debug)]
pub enum Flag {
    Presence,
    Darkness,
}

/// The ids of the flag sensors on the bridge.
#[derive(Clone, Copy, PartialEq, Eq, Structural, Debug)]
pub struct FlagIDs {
    pub presence: isize,
    pub darkness: isize,
}

/// Configuration of the bridge.
pub struct HueBridgeConfig {
    pub identifier: String,
    pub ip: [u8; 4],
    pub login: String,
    pub flags: FlagIDs,
}

/// The request that sets a flag: PUT `{ "flag": flag }` to `url`.
pub struct FlagRequest {
    pub url: String,
    pub flag: bool,
}

/// The URL of the state of a flag sensor.
pub open spec fn flag_url_text(config: HueBridgeConfig, flag_id: isize) -> Seq<char> {
    "http://"@ + socket_addr_v4_text(config.ip@, HUE_BRIDGE_PORT) + "/api/"@ + config.login@
        + "/sensors/"@ + signed_decimal(flag_id as int) + "/state"@
}

/// The sensor id of a flag.
pub open spec fn flag_id(flags: FlagIDs, flag: Flag) -> isize {
    match flag {
        Flag::Presence => flags.presence,
        Flag::Darkness => flags.darkness,
    }
}

/// The Hue bridge.
pub struct HueBridge {
    config: HueBridgeConfig,
}

impl HueBridge {
    pub closed spec fn config(&self) -> HueBridgeConfig {
        self.config
    }

    pub fn new(config: HueBridgeConfig) -> (res: Self)
        ensures
            res.config() == config,
    {
        HueBridge { config }
    }

    pub fn get_id(&self) -> (res: String)
        ensures
            res == self.config().identifier,
    {
        self.config.identifier.clone()
    }

    /// The request that sets `flag` to `value`.
    pub fn set_flag(&self, flag: Flag, value: bool) -> (res: FlagRequest)
        ensures
            res.url@ == flag_url_text(self.config(), flag_id(self.config().flags, flag)),
            res.flag == value,
    {
        let flag_id = match flag {
            Flag::Presence => self.config.flags.presence,
            Flag::Darkness => self.config.flags.darkness,
        };
        let mut url = owned("http://");
        push_socket_addr_v4(&mut url, self.config.ip, HUE_BRIDGE_PORT);
        url.append("/api/");
        url.append(self.config.login.as_str());
        url.append("/sensors/");
        push_signed_decimal(&mut url, flag_id);
        url.append("/state");
        FlagRequest { url, flag: value }
    }
}

impl OnPresence for HueBridge {
    type Action = FlagRequest;

    /// Mirrors the presence into the presence flag.
    fn on_presence(&mut self, presence: bool) -> (res: FlagRequest)
        ensures
            final(self).config() == old(self).config(),
            res.url@ == flag_url_text(old(self).config(), old(self).config().flags.presence),
            res.flag == presence,
    {
        self.set_flag(Flag::Presence, presence)
    }
}

impl OnDarkness for HueBridge {
    type Action = FlagRequest;

    /// Mirrors the darkness into the darkness flag.
    fn on_darkness(&mut self, dark: bool) -> (res: FlagRequest)
        ensures
            final(self).config() == old(self).config(),
            res.url@ == flag_url_text(old(self).config(), old(self).config().flags.darkness),
            res.flag == dark,
    {
        self.set_flag(Flag::Darkness, dark)
    }
}

} // verus!
