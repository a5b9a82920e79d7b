//! Push notifications through an ntfy server.
use vstd::prelude::*;
use crate::event::OnPresence;
use crate::text::owned;

verus! {

/// Priority of a notification (ntfy numbers them 1 to 5 in this order).
#[derive(Clone, Copy, PartialEq, Eq, Structural, Debug)]
pub enum Priority {
    Min,
    Low,
    Default,
    High,
    Max,
}

/// What pressing an action button does.
pub enum ActionType {
    /// Sends an Android broadcast with the given extras.
    Broadcast { extras: Vec<(String, String)> },
}

/// A button attached to a notification.
pub struct Action {
    pub action: ActionType,
    pub label: String,
    pub clear: Option<bool>,
}

/// A notification; the topic it goes to is added when it is sent.
pub struct Notification {
    pub title: Option<String>,
    pub message: Option<String>,
    pub tags: Vec<String>,
    pub priority: Option<Priority>,
    pub actions: Vec<Action>,
}

impl Notification {
    /// An empty notification.
    pub fn new() -> (res: Self)
        ensures
            res.title is None,
            res.message is None,
            res.tags@.len() == 0,
            res.priority is None,
            res.actions@.len() == 0,
    {
        Notification { title: None, message: None, tags: Vec::new(), priority: None, actions: Vec::new() }
    }

    pub fn set_title(self, title: &str) -> (res: Self)
        ensures
            res.title matches Some(t) && t@ == title@,
            res.message == self.message,
            res.tags == self.tags,
            res.priority == self.priority,
            res.actions == self.actions,
    {
        let mut s = self;
        s.title = Some(owned(title));
        s
    }

    pub fn set_message(self, message: &str) -> (res: Self)
        ensures
            res.message matches Some(m) && m@ == message@,
            res.title == self.title,
            res.tags == self.tags,
            res.priority == self.priority,
            res.actions == self.actions,
    {
        let mut s = self;
        s.message = Some(owned(message));
        s
    }

    pub fn add_tag(self, tag: &str) -> (res: Self)
        ensures
            res.tags@.len() == self.tags@.len() + 1,
            res.tags@.take(self.tags@.len() as int) == self.tags@,
            res.tags@.last()@ == tag@,
            res.title == self.title,
            res.message == self.message,
            res.priority == self.priority,
            res.actions == self.actions,
    {
        let mut s = self;
        s.tags.push(owned(tag));
        assert(s.tags@.take(self.tags@.len() as int) =~= self.tags@);
        s
    }

    pub fn set_priority(self, priority: Priority) -> (res: Self)
        ensures
            res.priority == Some(priority),
            res.title == self.title,
            res.message == self.message,
            res.tags == self.tags,
            res.actions == self.actions,
    {
        let mut s = self;
        s.priority = Some(priority);
        s
    }

    pub fn add_action(self, action: Action) -> (res: Self)
        ensures
            res.actions@ == self.actions@.push(action),
            res.title == self.title,
            res.message == self.message,
            res.tags == self.tags,
            res.priority == self.priority,
    {
        let mut s = self;
        s.actions.push(action);
        s
    }
}

/// Where notifications are posted.
pub struct NtfyConfig {
    pub url: String,
    pub topic: String,
}

/// A notifier that posts to an ntfy server.
pub struct Ntfy {
    pub base_url: String,
    pub topic: String,
}

/// The notification sent when the presence of the house changes, as
/// plain text: (title, message, tag, button label, state extra).
pub open spec fn presence_texts(presence: bool) -> (Seq<char>, Seq<char>, Seq<char>, Seq<char>, Seq<char>) {
    (
        "Presence"@,
        if presence { "Home"@ } else { "Away"@ },
        "house"@,
        if presence { "Set away"@ } else { "Set home"@ },
        if presence { "0"@ } else { "1"@ },
    )
}

/// The notification's button switches the house to the other presence:
/// its "state" extra is that presence ("1" for home, "0" for away), its label
/// names it, and it is never the presence just announced; the two
/// notifications carry different states.
pub proof fn lemma_presence_button(presence: bool)
    ensures
        presence_texts(presence).4 == (if !presence { "1"@ } else { "0"@ }),
        presence_texts(presence).3 == (if !presence { "Set home"@ } else { "Set away"@ }),
        presence_texts(presence).1 == (if presence { "Home"@ } else { "Away"@ }),
        presence_texts(true).4 != presence_texts(false).4,
        presence_texts(true).3 != presence_texts(false).3,
{
    reveal_strlit("0");
    reveal_strlit("1");
    reveal_strlit("Set home");
    reveal_strlit("Set away");
    assert(presence_texts(true).4[0] != presence_texts(false).4[0]);
    assert(presence_texts(true).3[5] != presence_texts(false).3[5]);
}

impl Ntfy {
    pub fn new(config: NtfyConfig) -> (res: Self)
        ensures
            res.base_url == config.url,
            res.topic == config.topic,
    {
        Ntfy { base_url: config.url, topic: config.topic }
    }

    /// The notification that tells the house's presence, with a button that
    /// broadcasts the command to flip it ("cmd" = "presence", "state" = "0"
    /// to set away, "1" to set home), at low priority.
    pub fn presence_notification(presence: bool) -> (res: Notification)
        ensures
            res.title matches Some(t) && t@ == presence_texts(presence).0,
            res.message matches Some(m) && m@ == presence_texts(presence).1,
            res.tags@.len() == 1 && res.tags@[0]@ == presence_texts(presence).2,
            res.priority == Some(Priority::Low),
            res.actions@.len() == 1,
            res.actions@[0].label@ == presence_texts(presence).3,
            res.actions@[0].clear == Some(true),
            res.actions@[0].action matches ActionType::Broadcast { extras } && extras@.len() == 2
                && extras@[0].0@ == "cmd"@ && extras@[0].1@ == "presence"@
                && extras@[1].0@ == "state"@ && extras@[1].1@ == presence_texts(presence).4,
    {
        let mut extras: Vec<(String, String)> = Vec::new();
        extras.push((owned("cmd"), owned("presence")));
        extras.push((owned("state"), owned(if presence { "0" } else { "1" })));
        let action = Action {
            action: ActionType::Broadcast { extras },
            label: owned(if presence { "Set away" } else { "Set home" }),
            clear: Some(true),
        };
        Notification::new()
            .set_title("Presence")
            .set_message(if presence { "Home" } else { "Away" })
            .add_tag("house")
            .add_action(action)
            .set_priority(Priority::Low)
    }
}

impl OnPresence for Ntfy {
    type Action = Notification;

    /// The notification that tells the new presence.
    fn on_presence(&mut self, presence: bool) -> (res: Notification)
        ensures
            final(self).base_url == old(self).base_url,
            final(self).topic == old(self).topic,
            res.title matches Some(t) && t@ == presence_texts(presence).0,
            res.message matches Some(m) && m@ == presence_texts(presence).1,
            res.tags@.len() == 1 && res.tags@[0]@ == presence_texts(presence).2,
            res.priority == Some(Priority::Low),
            res.actions@.len() == 1,
            res.actions@[0].label@ == presence_texts(presence).3,
            res.actions@[0].clear == Some(true),
            res.actions@[0].action matches ActionType::Broadcast { extras } && extras@.len() == 2
                && extras@[0].0@ == "cmd"@ && extras@[0].1@ == "presence"@
                && extras@[1].0@ == "state"@ && extras@[1].1@ == presence_texts(presence).4,
    {
        Ntfy::presence_notification(presence)
    }
}

} // verus!
