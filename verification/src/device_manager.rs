//! The table of the devices of the house, and which of them an event is
//! delivered to: MQTT messages go to the devices that listen to MQTT (the
//! topic-filtered variant only to those subscribed to the message's topic),
//! presence, darkness and notifications to the devices that react to them.
use vstd::prelude::*;
use crate::event::Event;
use crate::mqtt::{matchable_topic, mqtt_topic_matches, topic_matches};
use crate::text::str_eq;

verus! {

/// Which kinds of events a device reacts to.
#[derive(Clone, Copy, PartialEq, Eq, Structural, Debug)]
pub struct Capabilities {
    pub mqtt: bool,
    pub presence: bool,
    pub darkness: bool,
    pub notification: bool,
}

/// A device as the manager knows it: its id, what it reacts to, and the
/// topics it subscribes to.
pub struct DeviceEntry {
    pub id: String,
    pub capabilities: Capabilities,
    pub topics: Vec<String>,
}

/// Whether a device reacts to an event at all.
pub open spec fn reacts_to(c: Capabilities, event: Event) -> bool {
    match event {
        Event::MqttMessage(_) => c.mqtt,
        Event::Darkness(_) => c.darkness,
        Event::Presence(_) => c.presence,
        Event::Ntfy(_) => c.notification,
    }
}

/// Whether a topic matches any of a device's subscriptions.
pub open spec fn subscribed_to(topics: Seq<String>, topic: Seq<char>) -> bool {
    exists|i: int| 0 <= i < topics.len() && mqtt_topic_matches(topic, #[trigger] topics[i]@)
}

/// Whether a device gets an event; with `filter_topics`, MQTT messages only
/// go to devices subscribed to their topic.
pub open spec fn delivered_to(entry: DeviceEntry, event: Event, filter_topics: bool) -> bool {
    &&& reacts_to(entry.capabilities, event)
    &&& filter_topics ==> (event matches Event::MqttMessage(m) ==> subscribed_to(entry.topics@, m.topic@))
}

/// The ids of the entries, among the first `n`, that get the event, in
/// table order.
pub open spec fn recipients_of(entries: Seq<DeviceEntry>, event: Event, filter_topics: bool, n: nat) -> Seq<
    Seq<char>,
>
    decreases n,
{
    if n == 0 {
        seq![]
    } else {
        let rest = recipients_of(entries, event, filter_topics, (n - 1) as nat);
        if delivered_to(entries[n - 1], event, filter_topics) {
            rest.push(entries[n - 1].id@)
        } else {
            rest
        }
    }
}

/// Filtering by topic only concerns MQTT messages: presence, darkness and
/// notifications reach the same devices either way.
pub proof fn lemma_filter_only_mqtt(entries: Seq<DeviceEntry>, event: Event, n: nat)
    requires
        !(event is MqttMessage),
    ensures
        recipients_of(entries, event, true, n) == recipients_of(entries, event, false, n),
    decreases n,
{
    if n > 0 {
        lemma_filter_only_mqtt(entries, event, (n - 1) as nat);
    }
}

/// The ids among the recipients from the first `m` entries: exactly those of
/// the entries among them that get the event.
proof fn lemma_recipients_contains(entries: Seq<DeviceEntry>, event: Event, filter_topics: bool, m: nat)
    requires
        distinct_ids(entries),
        m <= entries.len(),
    ensures
        forall|i: int|
            0 <= i < entries.len() ==> (#[trigger] recipients_of(entries, event, filter_topics, m).contains(
                entries[i].id@,
            ) <==> (i < m && delivered_to(entries[i], event, filter_topics))),
    decreases m,
{
    if m > 0 {
        let k = m - 1;
        lemma_recipients_contains(entries, event, filter_topics, k as nat);
        let rest = recipients_of(entries, event, filter_topics, k as nat);
        let all = recipients_of(entries, event, filter_topics, m);
        assert forall|i: int| 0 <= i < entries.len() implies (#[trigger] all.contains(entries[i].id@) <==> (i < m
            && delivered_to(entries[i], event, filter_topics))) by {
            let x = entries[i].id@;
            if delivered_to(entries[k], event, filter_topics) {
                assert(all == rest.push(entries[k].id@));
                if all.contains(x) {
                    let w = choose|w: int| 0 <= w < all.len() && all[w] == x;
                    if w < rest.len() {
                        assert(rest[w] == x);
                        assert(rest.contains(x));
                    } else {
                        assert(x == entries[k].id@);
                        if i != k {
                            assert(entries[i].id@ != entries[k].id@);
                        }
                    }
                }
                if i < m && delivered_to(entries[i], event, filter_topics) {
                    if i < k {
                        assert(rest.contains(x));
                        let w = choose|w: int| 0 <= w < rest.len() && rest[w] == x;
                        assert(all[w] == x);
                    } else {
                        assert(all[rest.len() as int] == x);
                    }
                }
            } else {
                assert(all == rest);
                if i == k {
                    if rest.contains(x) {
                        assert(false);
                    }
                }
            }
        }
    }
}

/// Routing: with distinct ids, a device gets a presence event exactly when
/// it reacts to presence, a darkness event exactly when it reacts to
/// darkness, a notification exactly when it takes notifications, and an
/// MQTT message exactly when it listens to MQTT (and, with the topic
/// filter, is subscribed to the message's topic). Each kind of event is
/// routed on its own capability.
pub proof fn lemma_routing(entries: Seq<DeviceEntry>, event: Event, filter_topics: bool)
    requires
        distinct_ids(entries),
    ensures
        forall|i: int|
            0 <= i < entries.len() ==> (#[trigger] recipients_of(entries, event, filter_topics, entries.len()).contains(
                entries[i].id@,
            ) <==> match event {
                Event::Presence(_) => entries[i].capabilities.presence,
                Event::Darkness(_) => entries[i].capabilities.darkness,
                Event::Ntfy(_) => entries[i].capabilities.notification,
                Event::MqttMessage(m) => entries[i].capabilities.mqtt && (filter_topics ==> exists|j: int|
                    0 <= j < entries[i].topics@.len() && mqtt_topic_matches(
                        m.topic@,
                        #[trigger] entries[i].topics@[j]@,
                    )),
            }),
{
    lemma_recipients_contains(entries, event, filter_topics, entries.len());
}

/// Whether no two entries share an id.
pub open spec fn distinct_ids(entries: Seq<DeviceEntry>) -> bool {
    forall|i: int, j: int|
        0 <= i < entries.len() && 0 <= j < entries.len() && i != j ==> #[trigger] entries[i].id@
            != #[trigger] entries[j].id@
}

/// The table after adding `device`: the entry with its id replaced in
/// place, or the device appended.
pub open spec fn added(entries: Seq<DeviceEntry>, device: DeviceEntry) -> Seq<DeviceEntry> {
    match DeviceManager::index_of(entries, device.id@) {
        Some(i) => entries.update(i, device),
        None => entries.push(device),
    }
}

/// Getting a device by the id of the device just added gives that device
/// back, and the table still has distinct ids.
pub proof fn lemma_get_after_add(entries: Seq<DeviceEntry>, device: DeviceEntry)
    requires
        distinct_ids(entries),
    ensures
        distinct_ids(added(entries, device)),
        DeviceManager::index_of(added(entries, device), device.id@) matches Some(j) && added(
            entries,
            device,
        )[j] == device,
{
    let after = added(entries, device);
    match DeviceManager::index_of(entries, device.id@) {
        Some(i) => {
            assert(after[i].id@ == device.id@);
            assert forall|a: int, b: int|
                0 <= a < after.len() && 0 <= b < after.len() && a != b implies #[trigger] after[a].id@
                    != #[trigger] after[b].id@ by {
                assert(entries[a].id@ != entries[b].id@);
            }
            assert(DeviceManager::index_of(after, device.id@) == Some(i));
        },
        None => {
            let k = entries.len() as int;
            assert(after[k].id@ == device.id@);
            assert forall|a: int, b: int|
                0 <= a < after.len() && 0 <= b < after.len() && a != b implies #[trigger] after[a].id@
                    != #[trigger] after[b].id@ by {
                if a < k && b < k {
                    assert(entries[a].id@ != entries[b].id@);
                } else if a < k {
                    assert(!(entries[a].id@ == device.id@));
                } else {
                    assert(!(entries[b].id@ == device.id@));
                }
            }
            assert(DeviceManager::index_of(after, device.id@) == Some(k));
        },
    }
}

/// The devices of the house, by id.
pub struct DeviceManager {
    devices: Vec<DeviceEntry>,
}

impl DeviceManager {
    /// The entries, in the order they were first added.
    pub closed spec fn entries(&self) -> Seq<DeviceEntry> {
        self.devices@
    }

    pub closed spec fn wf(&self) -> bool {
        distinct_ids(self.devices@)
    }

    pub fn new() -> (res: Self)
        ensures
            res.wf(),
            res.entries().len() == 0,
    {
        DeviceManager { devices: Vec::new() }
    }

    /// Adds a device; one with the same id is replaced, in its place.
    pub fn add(&mut self, device: DeviceEntry)
        requires
            old(self).wf(),
        ensures
            final(self).wf(),
            final(self).entries() == added(old(self).entries(), device),
    {
        let n = self.devices.len();
        let mut i: usize = 0;
        while i < n
            invariant
                n == self.devices@.len(),
                i <= n,
                self.devices@ == old(self).devices@,
                distinct_ids(self.devices@),
                forall|j: int| 0 <= j < i ==> #[trigger] self.devices@[j].id@ != device.id@,
            decreases n - i,
        {
            if str_eq(self.devices[i].id.as_str(), device.id.as_str()) {
                proof {
                    Self::lemma_index_of_found(self.devices@, device.id@, i as int);
                }
                let ghost before = self.devices@;
                self.devices.set(i, device);
                assert(self.devices@ =~= before.update(i as int, device));
                assert forall|a: int, b: int|
                    0 <= a < self.devices@.len() && 0 <= b < self.devices@.len() && a != b implies #[trigger] self.devices@[a].id@
                        != #[trigger] self.devices@[b].id@ by {
                    assert(before[a].id@ != before[b].id@);
                }
                return;
            }
            i = i + 1;
        }
        proof {
            Self::lemma_index_of_absent(self.devices@, device.id@);
        }
        let ghost before = self.devices@;
        self.devices.push(device);
        assert forall|a: int, b: int|
            0 <= a < self.devices@.len() && 0 <= b < self.devices@.len() && a != b implies #[trigger] self.devices@[a].id@
                != #[trigger] self.devices@[b].id@ by {
            if a < before.len() && b < before.len() {
                assert(before[a].id@ != before[b].id@);
            } else if a < before.len() {
                assert(before[a].id@ != device.id@);
            } else {
                assert(before[b].id@ != device.id@);
            }
        }
    }

    /// The position of the entry with this id, if any.
    pub open spec fn index_of(entries: Seq<DeviceEntry>, id: Seq<char>) -> Option<int> {
        if exists|i: int| 0 <= i < entries.len() && entries[i].id@ == id {
            Some(choose|i: int| 0 <= i < entries.len() && entries[i].id@ == id)
        } else {
            None
        }
    }

    proof fn lemma_index_of_found(entries: Seq<DeviceEntry>, id: Seq<char>, i: int)
        requires
            distinct_ids(entries),
            0 <= i < entries.len(),
            entries[i].id@ == id,
        ensures
            Self::index_of(entries, id) == Some(i),
    {
    }

    proof fn lemma_index_of_absent(entries: Seq<DeviceEntry>, id: Seq<char>)
        requires
            forall|j: int| 0 <= j < entries.len() ==> #[trigger] entries[j].id@ != id,
        ensures
            Self::index_of(entries, id) is None,
    {
    }

    /// The device with this id, if any.
    pub fn get(&self, name: &str) -> (res: Option<&DeviceEntry>)
        requires
            self.wf(),
        ensures
            match Self::index_of(self.entries(), name@) {
                Some(i) => res == Some(&self.entries()[i]),
                None => res is None,
            },
    {
        let n = self.devices.len();
        let mut i: usize = 0;
        while i < n
            invariant
                n == self.devices@.len(),
                i <= n,
                distinct_ids(self.devices@),
                forall|j: int| 0 <= j < i ==> #[trigger] self.devices@[j].id@ != name@,
            decreases n - i,
        {
            if str_eq(self.devices[i].id.as_str(), name) {
                proof {
                    Self::lemma_index_of_found(self.devices@, name@, i as int);
                }
                return Some(&self.devices[i]);
            }
            i = i + 1;
        }
        proof {
            Self::lemma_index_of_absent(self.devices@, name@);
        }
        None
    }

    /// The ids of the devices an event is delivered to, in table order:
    /// every device that reacts to that kind of event.
    pub fn handle_event(&self, event: &Event) -> (res: Vec<String>)
        ensures
            res@.map_values(|s: String| s@) == recipients_of(
                self.entries(),
                *event,
                false,
                self.entries().len(),
            ),
    {
        self.recipients(event, false)
    }

    /// Like `handle_event`, but an MQTT message only goes to the devices
    /// subscribed to its topic.
    pub fn handle_event_subscribed(&self, event: &Event) -> (res: Vec<String>)
        requires
            event matches Event::MqttMessage(m) ==> matchable_topic(m.topic@),
        ensures
            res@.map_values(|s: String| s@) == recipients_of(
                self.entries(),
                *event,
                true,
                self.entries().len(),
            ),
    {
        self.recipients(event, true)
    }

    fn recipients(&self, event: &Event, filter_topics: bool) -> (res: Vec<String>)
        requires
            filter_topics ==> (event matches Event::MqttMessage(m) ==> matchable_topic(m.topic@)),
        ensures
            res@.map_values(|s: String| s@) == recipients_of(
                self.entries(),
                *event,
                filter_topics,
                self.entries().len(),
            ),
    {
        let n = self.devices.len();
        let mut ids: Vec<String> = Vec::new();
        let mut i: usize = 0;
        while i < n
            invariant
                n == self.devices@.len(),
                i <= n,
                filter_topics ==> (event matches Event::MqttMessage(m) ==> matchable_topic(m.topic@)),
                ids@.map_values(|s: String| s@) == recipients_of(
                    self.devices@,
                    *event,
                    filter_topics,
                    i as nat,
                ),
            decreases n - i,
        {
            let entry = &self.devices[i];
            let reacts = match event {
                Event::MqttMessage(_) => entry.capabilities.mqtt,
                Event::Darkness(_) => entry.capabilities.darkness,
                Event::Presence(_) => entry.capabilities.presence,
                Event::Ntfy(_) => entry.capabilities.notification,
            };
            let deliver = if !reacts {
                false
            } else if filter_topics {
                match event {
                    Event::MqttMessage(m) => Self::subscribed(&entry.topics, m.topic.as_str()),
                    _ => true,
                }
            } else {
                true
            };
            let ghost before = ids@;
            if deliver {
                ids.push(entry.id.clone());
                assert(ids@.map_values(|s: String| s@) =~= before.map_values(|s: String| s@).push(
                    entry.id@,
                ));
            }
            i = i + 1;
        }
        ids
    }

    /// Whether `topic` matches any of `topics`.
    pub fn subscribed(topics: &Vec<String>, topic: &str) -> (res: bool)
        requires
            matchable_topic(topic@),
        ensures
            res == subscribed_to(topics@, topic@),
    {
        let n = topics.len();
        let mut i: usize = 0;
        while i < n
            invariant
                n == topics@.len(),
                i <= n,
                matchable_topic(topic@),
                forall|j: int| 0 <= j < i ==> !mqtt_topic_matches(topic@, #[trigger] topics@[j]@),
            decreases n - i,
        {
            if topic_matches(topic, topics[i].as_str()) {
                return true;
            }
            i = i + 1;
        }
        false
    }
}

} // verus!
