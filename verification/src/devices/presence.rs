//! The presence of the house: each phone (or other device) reports on its own
//! topic under a wildcard filter whether it is home; the house is present
//! when any of them is.
use vstd::prelude::*;
use vstd::hash_map::StringHashMap;
use vstd::utf8::*;
use vstd::string::StringSliceAdditionalSpecFns;
use crate::error::{MissingWildcard, ParseError, PresenceError};
use crate::event::Event;
use crate::messages::PresenceMessage;
use crate::mqtt::{matchable_topic, mqtt_topic_matches, topic_matches, MqttDeviceConfig};
use crate::text::owned;

verus! {

broadcast use vstd::hash_map::group_hash_map_axioms;

/// The presence of the house before any device has reported.
pub const DEFAULT_PRESENCE: bool = false;

/// Configuration of the presence aggregator: the wildcard topic under which
/// the devices report.
pub struct PresenceConfig {
    pub mqtt: MqttDeviceConfig,
}

/// The index of the first byte equal to `b`, if any.
pub open spec fn first_index_of(bytes: Seq<u8>, b: u8) -> Option<int>
    decreases bytes.len(),
{
    if bytes.len() == 0 {
        None
    } else if bytes.last() == b && !bytes.drop_last().contains(b) {
        Some(bytes.len() - 1)
    } else {
        first_index_of(bytes.drop_last(), b)
    }
}

/// Where the device part of a topic starts: at the byte offset of the first
/// '+' in the filter, or else of its first '#' (what `str::find` gives).
pub open spec fn wildcard_offset(filter: Seq<char>) -> Option<int> {
    match first_index_of(encode_utf8(filter), '+' as u8) {
        Some(i) => Some(i),
        None => first_index_of(encode_utf8(filter), '#' as u8),
    }
}

/// Whether the device name can be cut out of `topic`: the filter has a
/// wildcard, and its offset falls on a character boundary of the topic.
pub open spec fn device_name_cuttable(topic: Seq<char>, filter: Seq<char>) -> bool {
    match wildcard_offset(filter) {
        Some(off) => off <= encode_utf8(topic).len() && is_char_boundary(encode_utf8(topic), off),
        None => false,
    }
}

/// The device name of a topic: its text from the wildcard offset on.
pub open spec fn device_name(topic: Seq<char>, filter: Seq<char>) -> Seq<char> {
    let bytes = encode_utf8(topic);
    decode_utf8(bytes.subrange(wildcard_offset(filter).unwrap(), bytes.len() as int))
}

/// Whether any device in the map reports being home.
pub open spec fn any_present(devices: Map<Seq<char>, bool>) -> bool {
    exists|k: Seq<char>| devices.contains_key(k) && devices[k]
}

/// The devices that report being home.
pub open spec fn present_keys(devices: Map<Seq<char>, bool>) -> Set<Seq<char>> {
    devices.dom().filter(|k: Seq<char>| devices[k])
}

/// How a report changes the map of devices: an empty payload removes the
/// device, a valid message sets its state, an invalid one changes nothing.
pub open spec fn updated_devices(
    devices: Map<Seq<char>, bool>,
    name: Seq<char>,
    payload: Seq<u8>,
    parsed: Result<PresenceMessage, ParseError>,
) -> Map<Seq<char>, bool> {
    if payload.len() == 0 {
        devices.remove(name)
    } else {
        match parsed {
            Ok(msg) => devices.insert(name, msg.state),
            Err(_) => devices,
        }
    }
}

/// What a report does to the known devices: an empty payload forgets the
/// device, a decoded one records its state, and a non-empty payload that
/// does not decode changes nothing.
pub proof fn lemma_report_effect(
    devices: Map<Seq<char>, bool>,
    name: Seq<char>,
    payload: Seq<u8>,
    parsed: Result<PresenceMessage, ParseError>,
)
    ensures
        payload.len() == 0 ==> !updated_devices(devices, name, payload, parsed).contains_key(name),
        payload.len() == 0 ==> forall|k: Seq<char>|
            k != name ==> #[trigger] updated_devices(devices, name, payload, parsed).contains_key(k)
                == devices.contains_key(k),
        payload.len() > 0 && parsed is Err ==> updated_devices(devices, name, payload, parsed)
            == devices,
        payload.len() > 0 && parsed is Ok ==> updated_devices(devices, name, payload, parsed).contains_key(
            name,
        ) && updated_devices(devices, name, payload, parsed)[name] == parsed->Ok_0.state,
{
}

/// A report as `on_mqtt` receives it: topic, raw payload, and the payload
/// decoded.
pub type Report = (Seq<char>, Seq<u8>, Result<PresenceMessage, ParseError>);

/// The devices known after a sequence of reports, starting from none: each
/// report on a topic that matches the filter updates the device named by
/// the topic, others change nothing. `Presence::create` starts from the empty
/// map and each call of `on_mqtt` takes one step, so after every call
/// `devices()` is this map and the announced presence is `any_present` of it.
pub open spec fn devices_after(filter: Seq<char>, reports: Seq<Report>) -> Map<Seq<char>, bool>
    decreases reports.len(),
{
    if reports.len() == 0 {
        Map::empty()
    } else {
        let before = devices_after(filter, reports.drop_last());
        let (topic, payload, parsed) = reports.last();
        if mqtt_topic_matches(topic, filter) {
            updated_devices(before, device_name(topic, filter), payload, parsed)
        } else {
            before
        }
    }
}

/// Over any sequence of reports, the devices known stay finitely many, and
/// an empty report for a device undoes a report that added it: the devices
/// are then those before the device was added, without it.
pub proof fn lemma_presence_history(filter: Seq<char>, reports: Seq<Report>, name: Seq<char>, payload: Seq<u8>, msg: PresenceMessage, other: Result<PresenceMessage, ParseError>)
    requires
        payload.len() > 0,
    ensures
        devices_after(filter, reports).dom().finite(),
        updated_devices(
            updated_devices(devices_after(filter, reports), name, payload, Ok(msg)),
            name,
            Seq::empty(),
            other,
        ) == devices_after(filter, reports).remove(name),
    decreases reports.len(),
{
    if reports.len() > 0 {
        lemma_presence_history(filter, reports.drop_last(), name, payload, msg, other);
    }
    let d = devices_after(filter, reports);
    assert(d.insert(name, msg.state).remove(name) =~= d.remove(name));
}

/// Aggregates the presence of the devices of the house.
pub struct Presence {
    config: PresenceConfig,
    devices: StringHashMap<bool>,
    present_count: usize,
    current_overall_presence: bool,
    reports: Ghost<Seq<Report>>,
}

impl Presence {
    /// The state of each device that has reported, by name.
    pub closed spec fn devices(&self) -> Map<Seq<char>, bool> {
        self.devices@
    }

    /// The presence of the house as last announced.
    pub closed spec fn overall_presence(&self) -> bool {
        self.current_overall_presence
    }

    /// The filter under which the devices report.
    pub closed spec fn topic(&self) -> Seq<char> {
        self.config.mqtt.topic@
    }

    /// The aggregator's internal consistency: the announced presence is
    /// whether any device is home.
    pub closed spec fn wf(&self) -> bool {
        &&& self.devices@.dom().finite()
        &&& self.present_count == present_keys(self.devices@).len()
        &&& self.current_overall_presence == any_present(self.devices@)
        &&& self.devices@ == devices_after(self.config.mqtt.topic@, self.reports@)
    }

    /// The reports handled so far, in order.
    pub closed spec fn reports(&self) -> Seq<Report> {
        self.reports@
    }

    /// Over the whole history of a presence aggregator: the devices it knows
    /// are those its reports leave (`devices_after`), and the presence it
    /// announced last is whether any of them is home.
    pub proof fn lemma_history(&self)
        requires
            self.wf(),
        ensures
            self.devices() == devices_after(self.topic(), self.reports()),
            self.overall_presence() == any_present(devices_after(self.topic(), self.reports())),
    {
    }

    /// A fresh aggregator: no device known, nobody home.
    pub fn new(config: PresenceConfig) -> (res: Self)
        ensures
            res.wf(),
            res.devices() == Map::<Seq<char>, bool>::empty(),
            res.overall_presence() == DEFAULT_PRESENCE,
            res.topic() == config.mqtt.topic@,
            res.reports() == Seq::<Report>::empty(),
    {
        let res = Presence {
            config,
            devices: StringHashMap::new(),
            present_count: 0,
            current_overall_presence: DEFAULT_PRESENCE,
            reports: Ghost(Seq::empty()),
        };
        assert(present_keys(res.devices@) =~= Set::<Seq<char>>::empty());
        res
    }

    /// An aggregator for a wildcard topic; a topic with neither '+' nor '#'
    /// is refused, since the device name could not be cut out of the topics
    /// it matches.
    pub fn create(config: PresenceConfig) -> (res: Result<Self, PresenceError>)
        ensures
            res is Err <==> wildcard_offset(config.mqtt.topic@) is None,
            res matches Err(e) ==> e matches PresenceError::MissingWildcard(w) && w.topic@
                == config.mqtt.topic@,
            res matches Ok(p) ==> {
                &&& p.wf()
                &&& p.devices() == Map::<Seq<char>, bool>::empty()
                &&& p.overall_presence() == DEFAULT_PRESENCE
                &&& p.topic() == config.mqtt.topic@
                &&& p.reports() == Seq::<Report>::empty()
            },
    {
        match Self::find_wildcard(config.mqtt.topic.as_str()) {
            Some(_) => Ok(Self::new(config)),
            None => Err(PresenceError::MissingWildcard(MissingWildcard::new(config.mqtt.topic.as_str()))),
        }
    }

    pub fn get_id(&self) -> (res: String)
        ensures
            res@ == "presence"@,
    {
        owned("presence")
    }

    /// The announced presence is whether any device is home.
    pub proof fn lemma_overall_is_any(&self)
        requires
            self.wf(),
        ensures
            self.overall_presence() == any_present(self.devices()),
    {
    }

    proof fn lemma_any_present_count(devices: Map<Seq<char>, bool>)
        requires
            devices.dom().finite(),
        ensures
            present_keys(devices).finite(),
            any_present(devices) <==> present_keys(devices).len() > 0,
    {
        let p = present_keys(devices);
        assert(p.subset_of(devices.dom()));
        vstd::set_lib::lemma_set_subset_finite(devices.dom(), p);
        if any_present(devices) {
            let k = choose|k: Seq<char>| devices.contains_key(k) && devices[k];
            assert(p.contains(k));
            if p.len() == 0 {
                p.lemma_len0_is_empty();
            }
        } else {
            assert(p =~= Set::<Seq<char>>::empty());
        }
    }

    proof fn lemma_count_insert(devices: Map<Seq<char>, bool>, k: Seq<char>, v: bool)
        requires
            devices.dom().finite(),
        ensures
            devices.insert(k, v).dom().finite(),
            present_keys(devices.insert(k, v)) == (if v {
                present_keys(devices).insert(k)
            } else {
                present_keys(devices).remove(k)
            }),
    {
        let m2 = devices.insert(k, v);
        if v {
            assert(present_keys(m2) =~= present_keys(devices).insert(k));
        } else {
            assert(present_keys(m2) =~= present_keys(devices).remove(k));
        }
    }

    proof fn lemma_count_remove(devices: Map<Seq<char>, bool>, k: Seq<char>)
        requires
            devices.dom().finite(),
        ensures
            devices.remove(k).dom().finite(),
            present_keys(devices.remove(k)) == present_keys(devices).remove(k),
    {
        assert(present_keys(devices.remove(k)) =~= present_keys(devices).remove(k));
    }

    /// Handles a report on `topic` with raw `payload`; `parsed` is that
    /// payload decoded as a presence message. Topics that do not match the
    /// filter are ignored. An empty payload removes the device, a valid
    /// message records its state, an invalid one is dropped. When the
    /// presence of the house changes, the new presence is announced.
    pub fn on_mqtt(
        &mut self,
        topic: &str,
        payload: &[u8],
        parsed: Result<PresenceMessage, ParseError>,
    ) -> (res: Option<Event>)
        requires
            old(self).wf(),
            matchable_topic(topic@),
            mqtt_topic_matches(topic@, old(self).topic()) ==> device_name_cuttable(
                topic@,
                old(self).topic(),
            ),
        ensures
            final(self).wf(),
            final(self).reports() == old(self).reports().push((topic@, payload@, parsed)),
            payload@.len() > 0 && parsed is Err ==> {
                &&& final(self).devices() == old(self).devices()
                &&& final(self).overall_presence() == old(self).overall_presence()
                &&& res is None
            },
            final(self).topic() == old(self).topic(),
            final(self).devices() == (if mqtt_topic_matches(topic@, old(self).topic()) {
                updated_devices(
                    old(self).devices(),
                    device_name(topic@, old(self).topic()),
                    payload@,
                    parsed,
                )
            } else {
                old(self).devices()
            }),
            final(self).overall_presence() == any_present(final(self).devices()),
            res == (if final(self).overall_presence() != old(self).overall_presence() {
                Some(Event::Presence(final(self).overall_presence()))
            } else {
                None
            }),
    {
        proof {
            let r: Report = (topic@, payload@, parsed);
            assert(self.reports@.push(r).drop_last() =~= self.reports@);
            self.reports = Ghost(self.reports@.push(r));
        }
        if !topic_matches(topic, self.config.mqtt.topic.as_str()) {
            return None;
        }
        let ghost filter = self.config.mqtt.topic@;
        let offset = Self::find_wildcard(self.config.mqtt.topic.as_str());
        let offset = match offset {
            Some(o) => o,
            None => {
                assert(false);
                0
            },
        };
        proof {
            broadcast use vstd::string::group_string_axioms;
        }
        assert(topic.spec_bytes() == encode_utf8(topic@));
        let (_, tail) = topic.split_at(offset);
        let device_name_str = owned(tail);
        proof {
            encode_utf8_decode_utf8(tail@);
            assert(tail.spec_bytes() == encode_utf8(tail@));
            assert(device_name_str@ == device_name(topic@, filter));
        }

        let ghost before = self.devices@;
        proof {
            Self::lemma_any_present_count(before);
        }
        if payload.len() == 0 {
            let was_present = match self.devices.get(device_name_str.as_str()) {
                Some(v) => *v,
                None => false,
            };
            proof {
                Self::lemma_count_remove(before, device_name_str@);
                assert(was_present == present_keys(before).contains(device_name_str@));
            }
            self.devices.remove(device_name_str.as_str());
            if was_present {
                self.present_count = self.present_count - 1;
            }
        } else {
            let present = match parsed {
                Ok(msg) => msg.presence(),
                Err(_) => {
                    return None;
                },
            };
            let was_present = match self.devices.get(device_name_str.as_str()) {
                Some(v) => *v,
                None => false,
            };
            proof {
                Self::lemma_count_insert(before, device_name_str@, present);
                assert(was_present == present_keys(before).contains(device_name_str@));
                let after = before.insert(device_name_str@, present);
                assert(present_keys(after).subset_of(after.dom()));
                vstd::set_lib::lemma_len_subset(present_keys(after), after.dom());
            }
            self.devices.insert(device_name_str, present);
            proof {
                assert(self.devices.spec_len() == self.devices@.len());
                Self::lemma_any_present_count(before);
            }
            if present && !was_present {
                self.present_count = self.present_count + 1;
            } else if !present && was_present {
                self.present_count = self.present_count - 1;
            }
        }
        proof {
            Self::lemma_any_present_count(self.devices@);
        }
        let overall_presence = self.present_count > 0;
        if overall_presence != self.current_overall_presence {
            self.current_overall_presence = overall_presence;
            Some(Event::Presence(overall_presence))
        } else {
            None
        }
    }

    /// Like `on_mqtt`, for any topic whose first character is ASCII: where
    /// the topic matches the filter but the device name cannot be cut out of
    /// it (no wildcard in the filter, or the topic too short), the report is
    /// refused and nothing changes; the result is then `None`.
    pub fn on_mqtt_checked(
        &mut self,
        topic: &str,
        payload: &[u8],
        parsed: Result<PresenceMessage, ParseError>,
    ) -> (res: Option<Option<Event>>)
        requires
            old(self).wf(),
            matchable_topic(topic@),
        ensures
            final(self).wf(),
            res is None <==> (mqtt_topic_matches(topic@, old(self).topic())
                && !device_name_cuttable(topic@, old(self).topic())),
            res is None ==> final(self).devices() == old(self).devices()
                && final(self).overall_presence() == old(self).overall_presence()
                && final(self).topic() == old(self).topic()
                && final(self).reports() == old(self).reports(),
            res matches Some(r) ==> final(self).topic() == old(self).topic()
                && final(self).reports() == old(self).reports().push((topic@, payload@, parsed))
                && final(self).devices() == (if mqtt_topic_matches(topic@, old(self).topic()) {
                    updated_devices(old(self).devices(), device_name(topic@, old(self).topic()), payload@, parsed)
                } else {
                    old(self).devices()
                })
                && final(self).overall_presence() == any_present(final(self).devices())
                && r == (if final(self).overall_presence() != old(self).overall_presence() {
                    Some(Event::Presence(final(self).overall_presence()))
                } else {
                    None
                }),
    {
        if topic_matches(topic, self.config.mqtt.topic.as_str()) {
            proof {
                broadcast use vstd::string::group_string_axioms;
            }
            assert(topic.spec_bytes() == encode_utf8(topic@));
            match Self::find_wildcard(self.config.mqtt.topic.as_str()) {
                Some(off) => {
                    let topic_len = topic.as_bytes().len();
                    if off > topic_len || !topic.is_char_boundary(off) {
                        return None;
                    }
                },
                None => {
                    return None;
                },
            }
        }
        Some(self.on_mqtt(topic, payload, parsed))
    }

    /// Byte offset of the first '+' in `filter`, or else of its first '#'.
    fn find_wildcard(filter: &str) -> (res: Option<usize>)
        ensures
            res matches Some(i) ==> wildcard_offset(filter@) == Some(i as int),
            res is None ==> wildcard_offset(filter@) is None,
    {
        proof {
            broadcast use vstd::string::group_string_axioms;
        }
        let bytes = filter.as_bytes();
        assert(bytes@ == encode_utf8(filter@));
        match Self::find_byte(bytes, '+' as u8) {
            Some(i) => Some(i),
            None => Self::find_byte(bytes, '#' as u8),
        }
    }

    fn find_byte(bytes: &[u8], b: u8) -> (res: Option<usize>)
        ensures
            res matches Some(i) ==> first_index_of(bytes@, b) == Some(i as int),
            res is None ==> first_index_of(bytes@, b) is None,
    {
        let n = bytes.len();
        let mut i: usize = 0;
        while i < n
            invariant
                n == bytes@.len(),
                i <= n,
                !bytes@.take(i as int).contains(b),
            decreases n - i,
        {
            if bytes[i] == b {
                proof {
                    Self::lemma_first_index(bytes@.take(i as int + 1), b);
                    Self::lemma_first_index_prefix(bytes@, b, i as int + 1);
                }
                return Some(i);
            }
            assert(bytes@.take(i as int + 1) =~= bytes@.take(i as int).push(bytes@[i as int]));
            i = i + 1;
        }
        proof {
            assert(bytes@.take(n as int) =~= bytes@);
            Self::lemma_first_index_none(bytes@, b);
        }
        None
    }

    proof fn lemma_first_index(s: Seq<u8>, b: u8)
        requires
            s.len() > 0,
            s.last() == b,
            !s.drop_last().contains(b),
        ensures
            first_index_of(s, b) == Some(s.len() - 1),
    {
    }

    proof fn lemma_first_index_none(s: Seq<u8>, b: u8)
        requires
            !s.contains(b),
        ensures
            first_index_of(s, b) is None,
        decreases s.len(),
    {
        if s.len() > 0 {
            assert(!s.drop_last().contains(b)) by {
                if s.drop_last().contains(b) {
                    let j = choose|j: int| 0 <= j < s.drop_last().len() && s.drop_last()[j] == b;
                    assert(s[j] == b);
                }
            }
            Self::lemma_first_index_none(s.drop_last(), b);
        }
    }

    /// The first occurrence in a prefix that contains `b` is the first
    /// occurrence in the whole sequence.
    proof fn lemma_first_index_prefix(s: Seq<u8>, b: u8, n: int)
        requires
            0 < n <= s.len(),
            first_index_of(s.take(n), b) is Some,
        ensures
            first_index_of(s, b) == first_index_of(s.take(n), b),
        decreases s.len() - n,
    {
        if n < s.len() {
            let t = s.take(n + 1);
            assert(t.drop_last() =~= s.take(n));
            Self::lemma_first_index_some_contains(s.take(n), b);
            assert(t.drop_last().contains(b));
            assert(first_index_of(t, b) == first_index_of(s.take(n), b));
            Self::lemma_first_index_prefix(s, b, n + 1);
        } else {
            assert(s.take(n) =~= s);
        }
    }

    proof fn lemma_first_index_some_contains(s: Seq<u8>, b: u8)
        requires
            first_index_of(s, b) is Some,
        ensures
            s.contains(b),
            0 <= first_index_of(s, b).unwrap() < s.len(),
            s[first_index_of(s, b).unwrap()] == b,
        decreases s.len(),
    {
        if s.last() == b && !s.drop_last().contains(b) {
        } else {
            Self::lemma_first_index_some_contains(s.drop_last(), b);
            let j = choose|j: int| 0 <= j < s.drop_last().len() && s.drop_last()[j] == b;
            assert(s[j] == b);
        }
    }
}

} // verus!
