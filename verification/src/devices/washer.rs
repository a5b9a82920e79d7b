//! A washing machine watched through its power draw: it is marked running
//! after the draw has been at or above the threshold for several readings in
//! a row, and a notification goes out when the draw drops below it again.
use vstd::prelude::*;
use crate::error::ParseError;
use crate::event::Event;
use crate::mqtt::{matchable_topic, mqtt_topic_matches, topic_matches, MqttDeviceConfig};
use crate::ntfy::{Notification, Priority};

verus! {

/// The number of readings at or above the threshold after which the washer
/// counts as running; fewer are taken for noise.
pub const HYSTERESIS: isize = 10;

/// A power reading compared with the threshold: whether it is below it, and
/// whether it is at or above it. Both are false for a reading that is not a
/// number.
pub struct PowerReading {
    pub below: bool,
    pub at_or_above: bool,
}

/// Configuration of a washer; the power threshold itself is applied where
/// the reading is decoded.
pub struct WasherConfig {
    pub identifier: String,
    pub mqtt: MqttDeviceConfig,
}

/// The running counter after a reading, and whether the washer is done.
pub open spec fn next_running(running: int, reading: PowerReading) -> (int, bool) {
    if reading.below && running >= HYSTERESIS {
        (0, true)
    } else if reading.below {
        (0, false)
    } else if reading.at_or_above && running < HYSTERESIS {
        (running + 1, false)
    } else {
        (running, false)
    }
}

/// A washer and how many readings in a row it has drawn power.
pub struct Washer {
    config: WasherConfig,
    running: isize,
    history: Ghost<Seq<PowerReading>>,
}

/// The texts of the notification sent when the laundry is done:
/// (title, message, tag).
pub open spec fn done_texts() -> (Seq<char>, Seq<char>, Seq<char>) {
    ("Laundy is done"@, "Don't forget to hang it!"@, "womans_clothes"@)
}

/// Whether `event` is the notification that the laundry is done.
pub open spec fn is_done_notification(event: Event) -> bool {
    event matches Event::Ntfy(n) && {
        &&& n.title matches Some(t) && t@ == done_texts().0
        &&& n.message matches Some(m) && m@ == done_texts().1
        &&& n.tags@.len() == 1 && n.tags@[0]@ == done_texts().2
        &&& n.priority == Some(Priority::High)
        &&& n.actions@.len() == 0
    }
}

impl Washer {
    /// The number of readings in a row at or above the threshold, capped at
    /// `HYSTERESIS`.
    pub closed spec fn running(&self) -> int {
        self.running as int
    }

    /// The configuration the device was made with.
    pub closed spec fn config(&self) -> WasherConfig {
        self.config
    }

    /// The readings the washer accepted that were numbers (on its topic,
    /// decodable, and either below the threshold or at or above it), in the
    /// order they came.
    pub closed spec fn history(&self) -> Seq<PowerReading> {
        self.history@
    }

    /// The counter of a washer always lies within `0..=HYSTERESIS`, and is
    /// what its history of readings makes it.
    pub proof fn lemma_running_bounded(&self)
        requires
            self.wf(),
        ensures
            0 <= self.running() <= HYSTERESIS,
            self.running() == running_after(self.history()),
    {
    }

    pub closed spec fn wf(&self) -> bool {
        &&& 0 <= self.running <= HYSTERESIS
        &&& forall|i: int| 0 <= i < self.history@.len() ==> decisive(#[trigger] self.history@[i])
        &&& self.running == running_after(self.history@)
    }

    pub fn new(config: WasherConfig) -> (res: Self)
        ensures
            res.wf(),
            res.config() == config,
            res.running() == 0,
            res.history() == Seq::<PowerReading>::empty(),
    {
        Washer { config, running: 0, history: Ghost(Seq::empty()) }
    }

    pub fn get_id(&self) -> (res: String)
        ensures
            res == self.config().identifier,
    {
        self.config.identifier.clone()
    }

    /// Handles a power report on `topic`; `reading` is its payload decoded
    /// and compared with the threshold. Announces the notification that the
    /// laundry is done when the draw drops after the washer was running.
    pub fn on_mqtt(&mut self, topic: &str, reading: Result<PowerReading, ParseError>) -> (res:
        Option<Event>)
        requires
            old(self).wf(),
            matchable_topic(topic@),
        ensures
            final(self).wf(),
            final(self).config() == old(self).config(),
            mqtt_topic_matches(topic@, old(self).config().mqtt.topic@) && reading is Ok ==> {
                let (running, done) = next_running(old(self).running(), reading->Ok_0);
                &&& final(self).running() == running
                &&& (done ==> (res matches Some(e) && is_done_notification(e)))
                &&& (!done ==> res is None)
            },
            !(mqtt_topic_matches(topic@, old(self).config().mqtt.topic@) && reading is Ok) ==> {
                &&& final(self).running() == old(self).running()
                &&& res is None
            },
            final(self).history() == (if mqtt_topic_matches(topic@, old(self).config().mqtt.topic@)
                && reading is Ok && decisive(reading->Ok_0) {
                old(self).history().push(reading->Ok_0)
            } else {
                old(self).history()
            }),
            mqtt_topic_matches(topic@, old(self).config().mqtt.topic@) && reading is Ok && decisive(
                reading->Ok_0,
            ) ==> (res is Some <==> (reading->Ok_0.below && last_all_high(
                old(self).history(),
                HYSTERESIS as int,
            ))),
    {
        if !topic_matches(topic, self.config.mqtt.topic.as_str()) {
            return None;
        }
        let reading = match reading {
            Ok(r) => r,
            Err(_) => {
                return None;
            },
        };
        proof {
            let h = self.history@;
            if decisive(reading) {
                lemma_done_iff_hysteresis(h, reading);
                assert(h.push(reading).drop_last() =~= h);
                assert forall|i: int| 0 <= i < h.push(reading).len() implies decisive(
                    #[trigger] h.push(reading)[i],
                ) by {
                    if i < h.len() {
                        assert(h.push(reading)[i] == h[i]);
                    }
                }
                self.history = Ghost(h.push(reading));
            }
        }
        if reading.below && self.running >= HYSTERESIS {
            self.running = 0;
            let notification = Notification::new()
                .set_title("Laundy is done")
                .set_message("Don't forget to hang it!")
                .add_tag("womans_clothes")
                .set_priority(Priority::High);
            Some(Event::Ntfy(notification))
        } else if reading.below {
            self.running = 0;
            None
        } else if reading.at_or_above && self.running < HYSTERESIS {
            self.running = self.running + 1;
            None
        } else {
            None
        }
    }
}

/// The washer is only reported done after at least `HYSTERESIS` readings in
/// a row at or above the threshold, and the counter starts over afterwards.
pub proof fn lemma_done_needs_hysteresis(running: int, reading: PowerReading)
    ensures
        next_running(running, reading).1 ==> running >= HYSTERESIS && next_running(running, reading).0 == 0,
        0 <= running <= HYSTERESIS ==> 0 <= next_running(running, reading).0 <= HYSTERESIS,
{
}

/// The counter after a sequence of accepted readings, starting from a new
/// washer: `Washer::new` starts at 0 and each accepted reading moves it as
/// `next_running` says, so `running()` is `running_after` of the readings
/// accepted so far.
pub open spec fn running_after(readings: Seq<PowerReading>) -> int
    decreases readings.len(),
{
    if readings.len() == 0 {
        0
    } else {
        next_running(running_after(readings.drop_last()), readings.last()).0
    }
}

/// A reading that is a number: it is below the threshold or at or above it
/// (a reading that claims both counts as below).
pub open spec fn decisive(reading: PowerReading) -> bool {
    reading.below || reading.at_or_above
}

/// A reading at or above the threshold (and not below it).
pub open spec fn high(reading: PowerReading) -> bool {
    reading.at_or_above && !reading.below
}

/// Whether the last `k` readings were all at or above the threshold.
pub open spec fn last_all_high(readings: Seq<PowerReading>, k: int) -> bool {
    &&& 0 <= k <= readings.len()
    &&& forall|j: int| readings.len() - k <= j < readings.len() ==> high(#[trigger] readings[j])
}

proof fn lemma_running_after(readings: Seq<PowerReading>, k: int)
    requires
        forall|i: int| 0 <= i < readings.len() ==> decisive(#[trigger] readings[i]),
        0 <= k <= HYSTERESIS,
    ensures
        0 <= running_after(readings) <= HYSTERESIS,
        running_after(readings) >= k <==> last_all_high(readings, k),
    decreases readings.len(), k,
{
    if readings.len() > 0 {
        let p = readings.drop_last();
        let r = readings.last();
        assert(decisive(readings[readings.len() - 1]));
        assert forall|i: int| 0 <= i < p.len() implies decisive(#[trigger] p[i]) by {
            assert(p[i] == readings[i]);
        }
        lemma_running_after(p, 0);
        if k > 0 {
            lemma_running_after(p, k - 1);
            if high(r) && last_all_high(p, k - 1) {
                assert forall|j: int| readings.len() - k <= j < readings.len() implies high(#[trigger] readings[j]) by {
                    if j < readings.len() - 1 {
                        assert(readings[j] == p[j]);
                    }
                }
            }
            if last_all_high(readings, k) {
                assert(high(readings[readings.len() - 1]));
                assert forall|j: int| p.len() - (k - 1) <= j < p.len() implies high(#[trigger] p[j]) by {
                    assert(readings[j] == p[j]);
                }
            }
        }
    }
}

/// Over any run of readings that are numbers, starting from a new washer:
/// the counter stays within `0..=HYSTERESIS`, and a reading reports the
/// washer done exactly when it is below the threshold and the `HYSTERESIS`
/// readings just before it were all at or above it.
pub proof fn lemma_done_iff_hysteresis(readings: Seq<PowerReading>, reading: PowerReading)
    requires
        forall|i: int| 0 <= i < readings.len() ==> decisive(#[trigger] readings[i]),
        decisive(reading),
    ensures
        0 <= running_after(readings) <= HYSTERESIS,
        next_running(running_after(readings), reading).1 <==> (reading.below && last_all_high(
            readings,
            HYSTERESIS as int,
        )),
{
    lemma_running_after(readings, HYSTERESIS as int);
}

} // verus!
