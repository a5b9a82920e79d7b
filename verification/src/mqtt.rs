//! MQTT topics and the device configuration shared by MQTT devices.
use vstd::prelude::*;

pub use crate::messages::{
    ActivateMessage, BrightnessMessage, ContactMessage, DarknessMessage, OnOffMessage,
    PresenceMessage, RemoteAction, RemoteMessage,
};
pub use crate::error::ParseError;
pub use crate::config::MqttDeviceConfig;

verus! {

/// Whether an MQTT topic matches a subscription filter, as `rumqttc::matches`
/// decides it (levels split at '/', '+' matches one level, '#' the rest).
pub uninterp spec fn mqtt_topic_matches(topic: Seq<char>, filter: Seq<char>) -> bool;

/// Whether `topic` can be handed to `rumqttc::matches`: that function slices
/// the first byte of a non-empty topic, so the first character must be ASCII.
pub open spec fn matchable_topic(topic: Seq<char>) -> bool {
    topic.len() == 0 || (topic[0] as u32) < 0x80
}

/// `rumqttc::matches`. Claimed: the result is `mqtt_topic_matches` of the
/// two strings, and a topic that starts with '$' never matches (the function
/// returns false first thing). The level-by-level rule itself is left unsaid.
#[verifier::external_body]
pub(crate) fn topic_matches(topic: &str, filter: &str) -> (res: bool)
    requires
        matchable_topic(topic@),
    ensures
        res == mqtt_topic_matches(topic@, filter@),
        topic@.len() > 0 && topic@[0] == '$' ==> !res,
{
    rumqttc::matches(topic, filter)
}

/// Connection settings of the MQTT broker.
pub struct MqttConfig {
    pub host: String,
    pub port: u16,
    pub client_name: String,
    pub username: String,
    pub password: String,
    pub tls: bool,
}

} // verus!
