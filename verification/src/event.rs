//! Events that devices raise for each other.
use vstd::prelude::*;
use crate::ntfy::Notification;

verus! {

/// An MQTT message as received: its topic and raw payload.
pub struct MqttMessage {
    pub topic: String,
    pub payload: Vec<u8>,
}

/// Something that happened in the house.
pub enum Event {
    MqttMessage(MqttMessage),
    Darkness(bool),
    Presence(bool),
    Ntfy(Notification),
}

/// A device that reacts to the presence of the house changing; the result
/// says what it wants done.
pub trait OnPresence {
    type Action;

    fn on_presence(&mut self, presence: bool) -> Self::Action;
}

/// A device that reacts to it getting dark or light; the result says what it
/// wants done.
pub trait OnDarkness {
    type Action;

    fn on_darkness(&mut self, dark: bool) -> Self::Action;
}

} // verus!
