//! Mirrors the house's presence and darkness to MQTT topics, retained, for
//! debugging and for other programs.
use vstd::prelude::*;
use vstd::string::*;
use crate::config::MqttDeviceConfig;
use crate::event::{OnDarkness, OnPresence};
use crate::messages::{DarknessMessage, PresenceMessage};

verus! {

/// Configuration of the debug bridge: the topic under which it publishes.
pub struct DebugBridgeConfig {
    pub identifier: String,
    pub mqtt: MqttDeviceConfig,
}

/// A retained message to publish on a topic.
pub struct Publication<M> {
    pub topic: String,
    pub message: M,
    pub retain: bool,
}

/// The debug bridge.
pub struct DebugBridge {
    config: DebugBridgeConfig,
}

impl DebugBridge {
    pub closed spec fn config(&self) -> DebugBridgeConfig {
        self.config
    }

    pub fn new(config: DebugBridgeConfig) -> (res: Self)
        ensures
            res.config() == config,
    {
        DebugBridge { config }
    }

    pub fn get_id(&self) -> (res: String)
        ensures
            res == self.config().identifier,
    {
        self.config.identifier.clone()
    }
}

impl OnPresence for DebugBridge {
    type Action = Publication<PresenceMessage>;

    /// Publishes the presence on "{topic}/presence".
    fn on_presence(&mut self, presence: bool) -> (res: Publication<PresenceMessage>)
        ensures
            final(self).config() == old(self).config(),
            res.topic@ == old(self).config().mqtt.topic@ + "/presence"@,
            res.message.state == presence,
            res.retain,
    {
        let message = PresenceMessage::new(presence);
        let mut topic = self.config.mqtt.topic.clone();
        topic.append("/presence");
        Publication { topic, message, retain: true }
    }
}

impl OnDarkness for DebugBridge {
    type Action = Publication<DarknessMessage>;

    /// Publishes the darkness on "{topic}/darkness".
    fn on_darkness(&mut self, dark: bool) -> (res: Publication<DarknessMessage>)
        ensures
            final(self).config() == old(self).config(),
            res.topic@ == old(self).config().mqtt.topic@ + "/darkness"@,
            res.message.state == dark,
            res.retain,
    {
        let message = DarknessMessage::new(dark);
        let mut topic = self.config.mqtt.topic.clone();
        topic.append("/darkness");
        Publication { topic, message, retain: true }
    }
}

} // verus!
