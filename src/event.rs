//! The event classifier: a parsed message to a chat event.

use vstd::prelude::*;
use crate::parser::{Command, IrcMessage, opt_view};
use crate::tags::find_tag;
use crate::text::{equals_str, trim_end, trim_end_len};

verus! {

/// The kind of a chat event.
#[derive(Debug, PartialEq, Eq, Structural, Clone, Copy)]
pub enum EventType {
    Message,
    Raid,
    Resub,
    Sub,
    SubGift,
}

/// Why a line yields no event.
#[derive(Debug, PartialEq, Eq, Structural, Clone, Copy)]
pub enum ChatError {
    /// No command token could be read from the line.
    UnparsableLine,
    /// A tag that the event needs is absent (`display-name`).
    MissingRequiredTag,
}

/// A chat event with the attributes derived from its message.
#[derive(Debug, PartialEq, Eq, Clone)]
pub struct Event {
    pub event_type: EventType,
    /// Display name of the user the event comes from.
    pub username: String,
    pub moderator: bool,
    pub subscriber: bool,
    /// The subscription plan; only user notices carry one.
    pub tier: Option<String>,
    /// The text of the message, without trailing whitespace.
    pub message: Option<String>,
}

/// An event as plain values: kind, user name, moderator, subscriber, tier,
/// message.
pub type EventView = (EventType, Seq<char>, bool, bool, Option<Seq<char>>, Option<Seq<char>>);

impl View for Event {
    type V = EventView;

    open spec fn view(&self) -> EventView {
        (
            self.event_type,
            self.username@,
            self.moderator,
            self.subscriber,
            opt_view(self.tier),
            opt_view(self.message),
        )
    }
}

/// The value stored under `k`, if any.
pub open spec fn map_get(m: Map<Seq<char>, Seq<char>>, k: Seq<char>) -> Option<Seq<char>> {
    if m.contains_key(k) {
        Some(m[k])
    } else {
        None
    }
}

/// A boolean tag is set when its value is exactly `1`.
pub open spec fn flag(v: Option<Seq<char>>) -> bool {
    v == Some("1"@)
}

/// The kind of a user notice, from its `msg-id` tag.
pub open spec fn notice_kind(msg_id: Option<Seq<char>>) -> EventType {
    match msg_id {
        Some(id) => if id == "raid"@ {
            EventType::Raid
        } else if id == "resub"@ {
            EventType::Resub
        } else if id == "sub"@ {
            EventType::Sub
        } else if id == "subgift"@ {
            EventType::SubGift
        } else {
            EventType::Message
        },
        None => EventType::Message,
    }
}

/// The event for a message with these tags and parameters; `notice` says
/// whether its command is a user notice. `Err` when `display-name` is absent.
pub open spec fn event_for(
    tags: Map<Seq<char>, Seq<char>>,
    notice: bool,
    params: Seq<Seq<char>>,
) -> Result<EventView, ChatError> {
    match map_get(tags, "display-name"@) {
        None => Err(ChatError::MissingRequiredTag),
        Some(name) => Ok(
            (
                if notice {
                    notice_kind(map_get(tags, "msg-id"@))
                } else {
                    EventType::Message
                },
                name,
                flag(map_get(tags, "mod"@)),
                flag(map_get(tags, "subscriber"@)),
                if notice {
                    map_get(tags, "msg-param-sub-plan"@)
                } else {
                    None
                },
                if params.len() > 1 {
                    Some(params[1].take(trim_end_len(params[1])))
                } else {
                    None
                },
            ),
        ),
    }
}

/// The event for a parsed message.
pub open spec fn classify_spec(m: IrcMessage) -> Result<EventView, ChatError> {
    event_for(m.tag_view(), m.command == Some(Command::UserNotice), m.param_view())
}

/// A classification result as plain values.
pub open spec fn result_view(r: Result<Event, ChatError>) -> Result<EventView, ChatError> {
    match r {
        Ok(e) => Ok(e@),
        Err(err) => Err(err),
    }
}

impl IrcMessage {
    /// The value of tag `k`, if any.
    pub open spec fn spec_tag(&self, k: Seq<char>) -> Option<Seq<char>> {
        map_get(self.tag_view(), k)
    }

    /// The value of tag `key`, or `None` when the message has no such tag.
    pub fn get_tag(&self, key: &str) -> (r: Option<String>)
        ensures
            opt_view(r) == self.spec_tag(key@),
    {
        match find_tag(&self.tags, key) {
            Some(i) => Some(self.tags[i].1.clone()),
            None => None,
        }
    }
}

/// A boolean tag value: set only when it is exactly `1`.
pub fn flag_set(v: &Option<String>) -> (r: bool)
    ensures
        r == flag(opt_view(*v)),
{
    match v {
        Some(s) => equals_str(s, "1"),
        None => false,
    }
}

/// The kind of a user notice with this `msg-id` value.
pub fn kind_for(msg_id: &Option<String>) -> (r: EventType)
    ensures
        r == notice_kind(opt_view(*msg_id)),
{
    match msg_id {
        Some(id) => if equals_str(id, "raid") {
            EventType::Raid
        } else if equals_str(id, "resub") {
            EventType::Resub
        } else if equals_str(id, "sub") {
            EventType::Sub
        } else if equals_str(id, "subgift") {
            EventType::SubGift
        } else {
            EventType::Message
        },
        None => EventType::Message,
    }
}

impl Event {
    /// Classifies a parsed message. Fails with `MissingRequiredTag` exactly
    /// when the message has no `display-name` tag.
    pub fn from_message(m: &IrcMessage) -> (r: Result<Event, ChatError>)
        ensures
            result_view(r) == classify_spec(*m),
    {
        let username = match m.get_tag("display-name") {
            Some(u) => u,
            None => {
                return Err(ChatError::MissingRequiredTag);
            },
        };
        let notice = match &m.command {
            Some(Command::UserNotice) => true,
            _ => false,
        };
        let event_type = if notice {
            kind_for(&m.get_tag("msg-id"))
        } else {
            EventType::Message
        };
        let tier = if notice {
            m.get_tag("msg-param-sub-plan")
        } else {
            None
        };
        let moderator = flag_set(&m.get_tag("mod"));
        let subscriber = flag_set(&m.get_tag("subscriber"));
        let message = if m.params.len() > 1 {
            Some(trim_end(&m.params[1]))
        } else {
            None
        };
        let e = Event { event_type, username, moderator, subscriber, tier, message };
        assert(m.param_view().len() == m.params@.len());
        Ok(e)
    }
}


/// Classification is a function of the message alone: two results that both
/// classify the same message are equal.
pub proof fn lemma_classify_deterministic(
    m: IrcMessage,
    r1: Result<Event, ChatError>,
    r2: Result<Event, ChatError>,
)
    requires
        result_view(r1) == classify_spec(m),
        result_view(r2) == classify_spec(m),
    ensures
        result_view(r1) == result_view(r2),
{
}

/// A message without `display-name` fails with `MissingRequiredTag`.
pub proof fn lemma_missing_name_fails(m: IrcMessage)
    requires
        m.spec_tag("display-name"@) is None,
    ensures
        classify_spec(m) == Err::<EventView, ChatError>(ChatError::MissingRequiredTag),
{
}

/// A user notice without `msg-id` is a plain message, and without
/// `msg-param-sub-plan` it has no tier; it does not fail when it names its
/// user.
pub proof fn lemma_notice_defaults(m: IrcMessage)
    requires
        m.command == Some(Command::UserNotice),
        m.spec_tag("display-name"@) is Some,
        m.spec_tag("msg-id"@) is None,
        m.spec_tag("msg-param-sub-plan"@) is None,
    ensures
        classify_spec(m) matches Ok(v) && v.0 == EventType::Message && v.4 is None,
{
}

/// `mod` and `subscriber` are set exactly when their tag value is `1`; `0`,
/// any other value, or no tag leaves them unset.
pub proof fn lemma_flags(m: IrcMessage)
    requires
        m.spec_tag("display-name"@) is Some,
    ensures
        classify_spec(m) matches Ok(v) && (v.2 <==> m.spec_tag("mod"@) == Some("1"@)) && (v.3
            <==> m.spec_tag("subscriber"@) == Some("1"@)),
{
}

} // verus!
