//! A zigbee device as zigbee2mqtt exposes it.
use vstd::prelude::*;
use crate::text::owned;

verus! {

/// A zigbee device: its friendly name and its MQTT topic.
pub struct Zigbee {
    friendly_name: String,
    topic: String,
}

impl Zigbee {
    pub closed spec fn spec_friendly_name(&self) -> Seq<char> {
        self.friendly_name@
    }

    pub closed spec fn spec_topic(&self) -> Seq<char> {
        self.topic@
    }

    pub fn new(friendly_name: &str, topic: &str) -> (res: Self)
        ensures
            res.spec_friendly_name() == friendly_name@,
            res.spec_topic() == topic@,
    {
        Zigbee { friendly_name: owned(friendly_name), topic: owned(topic) }
    }

    pub fn get_friendly_name(&self) -> (res: &str)
        ensures
            res@ == self.spec_friendly_name(),
    {
        self.friendly_name.as_str()
    }

    pub fn get_topic(&self) -> (res: &str)
        ensures
            res@ == self.spec_topic(),
    {
        self.topic.as_str()
    }
}

} // verus!
