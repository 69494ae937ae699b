//! The records of the team-chat side and the requests sent to it.

use vstd::prelude::*;
use vstd::string::StringExecFns;
use crate::json::{Json, JsonValue};
use crate::matrix::int_at;
use crate::text::{decimal, push_decimal, str_eq};

verus! {

/// A user of the realm.
#[derive(Debug, Clone)]
pub struct ZulipUser {
    pub user_id: i64,
    pub full_name: String,
    pub email: String,
    pub avatar_url: Option<String>,
    pub avatar_version: Option<i64>,
    pub is_active: bool,
    pub is_bot: bool,
    pub role: i64,
    pub timezone: Option<String>,
    pub date_joined: Option<String>,
}

/// A stream of the realm.
#[derive(Debug, Clone)]
pub struct ZulipStream {
    pub stream_id: i64,
    pub name: String,
    pub description: Option<String>,
    pub rendered_description: Option<String>,
    pub invite_only: bool,
    pub is_announcement_only: bool,
    pub is_web_public: bool,
    pub history_public_to_subscribers: bool,
    pub first_message_id: Option<i64>,
    pub stream_post_policy: Option<i64>,
    pub message_retention_days: Option<i64>,
}

/// A message.
#[derive(Debug, Clone)]
pub struct ZulipMessage {
    pub id: i64,
    pub sender_id: i64,
    pub sender_full_name: String,
    pub sender_email: String,
    pub sender_realm_str: Option<String>,
    pub content: String,
    pub rendered_content: Option<String>,
    pub content_type: String,
    pub timestamp: i64,
    pub msg_type: String,
    pub stream_id: Option<i64>,
    pub subject: Option<String>,
    pub subject_links: Option<Vec<String>>,
    pub display_recipient: Option<Json>,
    pub reactions: Option<Vec<ZulipReaction>>,
    pub flags: Option<Vec<String>>,
    pub last_edit_timestamp: Option<i64>,
    pub edit_history: Option<Vec<Json>>,
}

/// The user ids among the recipients listed in `items`: of each item that
/// is an object with an integer `id`, that integer, in order.
pub open spec fn recipient_ids_of(items: Seq<JsonValue>) -> Seq<i64>
    decreases items.len(),
{
    if items.len() == 0 {
        Seq::empty()
    } else {
        let rest = recipient_ids_of(items.drop_last());
        match int_at(items.last(), "id"@) {
            Some(id) => rest.push(id),
            None => rest,
        }
    }
}

impl ZulipMessage {
    /// Whether the message went to a stream.
    pub fn is_stream(&self) -> (r: bool)
        ensures
            r == (self.msg_type@ == "stream"@),
    {
        str_eq(self.msg_type.as_str(), "stream")
    }

    /// Whether the message went to users privately.
    pub fn is_private(&self) -> (r: bool)
        ensures
            r == (self.msg_type@ == "private"@),
    {
        str_eq(self.msg_type.as_str(), "private")
    }

    /// The topic of the message.
    pub fn topic(&self) -> (r: Option<&str>)
        ensures
            r is Some == self.subject is Some,
            r matches Some(t) ==> t@ == self.subject->0@,
    {
        match &self.subject {
            Some(s) => Some(s.as_str()),
            None => None,
        }
    }

    /// The recipients that the message lists, as a sequence of values.
    pub open spec fn recipients(&self) -> Seq<JsonValue> {
        match self.display_recipient {
            Some(d) => match d@.as_array() {
                Some(items) => items,
                None => Seq::empty(),
            },
            None => Seq::empty(),
        }
    }

    /// The ids of the users that a private message went to.
    pub fn recipient_user_ids(&self) -> (r: Vec<i64>)
        ensures
            r@ == recipient_ids_of(self.recipients()),
    {
        let mut out: Vec<i64> = Vec::new();
        let items = match &self.display_recipient {
            Some(d) => match d.as_array() {
                Some(items) => items,
                None => {
                    return out;
                },
            },
            None => {
                return out;
            },
        };
        let ghost all = self.recipients();
        let mut i: usize = 0;
        while i < items.len()
            invariant
                i <= items.len(),
                all == crate::json::array_view(items@),
                out@ == recipient_ids_of(all.take(i as int)),
            decreases items.len() - i,
        {
            proof {
                assert(all.take(i + 1).drop_last() =~= all.take(i as int));
                assert(all.take(i + 1).last() == items@[i as int]@);
            }
            let id = match items[i].get("id") {
                Some(v) => v.as_i64(),
                None => None,
            };
            if let Some(n) = id {
                out.push(n);
            }
            i += 1;
        }
        proof {
            assert(all.take(items@.len() as int) =~= all);
        }
        out
    }
}

/// A reaction to a message.
#[derive(Debug, Clone)]
pub struct ZulipReaction {
    pub emoji_name: String,
    pub emoji_code: String,
    pub reaction_type: String,
    pub user_id: i64,
    pub user: Option<ZulipUser>,
}

/// An event of a queue. What no field names is kept in `extra`.
#[derive(Debug, Clone)]
pub struct ZulipEvent {
    pub event_type: String,
    pub id: Option<i64>,
    pub message: Option<ZulipMessage>,
    pub user_id: Option<i64>,
    pub stream_id: Option<i64>,
    pub stream_name: Option<String>,
    pub message_id: Option<i64>,
    pub reaction: Option<ZulipReaction>,
    pub emoji_name: Option<String>,
    pub emoji_code: Option<String>,
    pub op: Option<String>,
    pub extra: Vec<(String, Json)>,
}

impl ZulipEvent {
    /// Whether the event reports a message.
    pub fn is_message(&self) -> (r: bool)
        ensures
            r == (self.event_type@ == "message"@),
    {
        str_eq(self.event_type.as_str(), "message")
    }

    /// Whether the event reports a reaction.
    pub fn is_reaction(&self) -> (r: bool)
        ensures
            r == (self.event_type@ == "reaction"@),
    {
        str_eq(self.event_type.as_str(), "reaction")
    }

    /// Whether the event reports the update of a message.
    pub fn is_update_message(&self) -> (r: bool)
        ensures
            r == (self.event_type@ == "update_message"@),
    {
        str_eq(self.event_type.as_str(), "update_message")
    }

    /// Whether the event reports the deletion of a message.
    pub fn is_delete_message(&self) -> (r: bool)
        ensures
            r == (self.event_type@ == "delete_message"@),
    {
        str_eq(self.event_type.as_str(), "delete_message")
    }

    /// Whether the event reports a subscription.
    pub fn is_subscription(&self) -> (r: bool)
        ensures
            r == (self.event_type@ == "subscription"@),
    {
        str_eq(self.event_type.as_str(), "subscription")
    }

    /// Whether the event reports a change of a user of the realm.
    pub fn is_realm_user(&self) -> (r: bool)
        ensures
            r == (self.event_type@ == "realm_user"@),
    {
        str_eq(self.event_type.as_str(), "realm_user")
    }
}

/// A registered event queue and the id of its last event.
#[derive(Debug, Clone)]
pub struct ZulipQueue {
    pub queue_id: String,
    pub last_event_id: i64,
}

/// The envelope of every response: the verdict, the server's message, and
/// the payload where one was read.
#[derive(Debug, Clone)]
pub struct ZulipApiResponse<T> {
    pub result: String,
    pub msg: String,
    pub data: Option<T>,
}

impl<T> ZulipApiResponse<T> {
    /// Whether the server reports success.
    pub fn is_success(&self) -> (r: bool)
        ensures
            r == (self.result@ == "success"@),
    {
        str_eq(self.result.as_str(), "success")
    }
}

/// The payload of an answer with messages.
#[derive(Debug, Clone)]
pub struct ZulipMessagesResponse {
    pub messages: Vec<ZulipMessage>,
}

/// The payload of an answer with streams.
#[derive(Debug, Clone)]
pub struct ZulipStreamsResponse {
    pub streams: Vec<ZulipStream>,
}

/// The payload of an answer with users.
#[derive(Debug, Clone)]
pub struct ZulipUsersResponse {
    pub members: Vec<ZulipUser>,
}

/// The payload of the answer to a message that was sent.
#[derive(Debug, Clone)]
pub struct ZulipSendMessageResponse {
    pub id: i64,
}

/// The payload of an answer with events.
#[derive(Debug, Clone)]
pub struct ZulipEventsResponse {
    pub events: Vec<ZulipEvent>,
}

/// A message to send.
#[derive(Debug, Clone)]
pub struct SendMessageRequest {
    pub msg_type: String,
    pub to: Option<String>,
    pub stream_id: Option<i64>,
    pub topic: Option<String>,
    pub content: String,
    pub local_id: Option<String>,
    pub queue_id: Option<String>,
}

/// The decimal notations of `ids`, separated by commas.
pub open spec fn comma_joined(ids: Seq<i64>) -> Seq<char>
    decreases ids.len(),
{
    if ids.len() == 0 {
        Seq::empty()
    } else if ids.len() == 1 {
        decimal(ids[0] as int)
    } else {
        comma_joined(ids.drop_last()) + ","@ + decimal(ids.last() as int)
    }
}

impl SendMessageRequest {
    /// A message to a topic of a stream.
    pub fn stream(stream_id: i64, topic: &str, content: &str) -> (r: Self)
        ensures
            r.msg_type@ == "stream"@,
            r.to is None,
            r.stream_id == Some(stream_id),
            r.topic is Some && r.topic->0@ == topic@,
            r.content@ == content@,
            r.local_id is None,
            r.queue_id is None,
    {
        SendMessageRequest {
            msg_type: String::from_str("stream"),
            to: None,
            stream_id: Some(stream_id),
            topic: Some(topic.to_owned()),
            content: content.to_owned(),
            local_id: None,
            queue_id: None,
        }
    }

    /// A private message to the users `user_ids`.
    pub fn private(user_ids: &[i64], content: &str) -> (r: Self)
        ensures
            r.msg_type@ == "private"@,
            r.to is Some && r.to->0@ == comma_joined(user_ids@),
            r.stream_id is None,
            r.topic is None,
            r.content@ == content@,
            r.local_id is None,
            r.queue_id is None,
    {
        let mut to = String::new();
        let mut i: usize = 0;
        while i < user_ids.len()
            invariant
                i <= user_ids.len(),
                to@ == comma_joined(user_ids@.take(i as int)),
            decreases user_ids.len() - i,
        {
            proof {
                assert(user_ids@.take(i + 1).drop_last() =~= user_ids@.take(i as int));
                assert(user_ids@.take(i + 1).last() == user_ids@[i as int]);
            }
            if i > 0 {
                to.append(",");
            }
            push_decimal(&mut to, user_ids[i]);
            i += 1;
        }
        proof {
            assert(user_ids@.take(user_ids@.len() as int) =~= user_ids@);
        }
        SendMessageRequest {
            msg_type: String::from_str("private"),
            to: Some(to),
            stream_id: None,
            topic: None,
            content: content.to_owned(),
            local_id: None,
            queue_id: None,
        }
    }
}

/// The wishes for an event queue.
#[derive(Debug, Clone)]
pub struct RegisterQueueRequest {
    pub event_types: Vec<String>,
    pub all_public_streams: Option<bool>,
    pub include_subscribers: Option<bool>,
    pub client_gravatar: Option<bool>,
    pub slim_presence: Option<bool>,
}

/// The event types that a queue is registered for unless told otherwise.
pub open spec fn default_event_types() -> Seq<Seq<char>> {
    seq![
        "message"@,
        "reaction"@,
        "update_message"@,
        "delete_message"@,
        "subscription"@,
        "realm_user"@,
    ]
}

impl Default for RegisterQueueRequest {
    fn default() -> (r: Self)
        ensures
            r.event_types@.len() == 6,
            forall|i: int|
                0 <= i < 6 ==> (#[trigger] r.event_types@[i])@ == default_event_types()[i],
            r.all_public_streams == Some(true),
            r.include_subscribers == Some(false),
            r.client_gravatar == Some(true),
            r.slim_presence == Some(true),
    {
        let mut event_types: Vec<String> = Vec::new();
        event_types.push(String::from_str("message"));
        event_types.push(String::from_str("reaction"));
        event_types.push(String::from_str("update_message"));
        event_types.push(String::from_str("delete_message"));
        event_types.push(String::from_str("subscription"));
        event_types.push(String::from_str("realm_user"));
        RegisterQueueRequest {
            event_types,
            all_public_streams: Some(true),
            include_subscribers: Some(false),
            client_gravatar: Some(true),
            slim_presence: Some(true),
        }
    }
}

/// The flags that a message can carry.
#[derive(Debug, Clone, Copy, PartialEq, Eq, Structural)]
pub enum MessageFlag {
    Read,
    Starred,
    Collapsed,
    Mentioned,
    WildcardMentioned,
    HasAlertWord,
    Historical,
}

impl MessageFlag {
    /// The name of the flag on the wire.
    pub open spec fn name(self) -> Seq<char> {
        match self {
            MessageFlag::Read => "read"@,
            MessageFlag::Starred => "starred"@,
            MessageFlag::Collapsed => "collapsed"@,
            MessageFlag::Mentioned => "mentioned"@,
            MessageFlag::WildcardMentioned => "wildcard_mentioned"@,
            MessageFlag::HasAlertWord => "has_alert_word"@,
            MessageFlag::Historical => "historical"@,
        }
    }

    /// The name of the flag.
    pub fn as_str(&self) -> (r: &'static str)
        ensures
            r@ == self.name(),
    {
        match self {
            MessageFlag::Read => "read",
            MessageFlag::Starred => "starred",
            MessageFlag::Collapsed => "collapsed",
            MessageFlag::Mentioned => "mentioned",
            MessageFlag::WildcardMentioned => "wildcard_mentioned",
            MessageFlag::HasAlertWord => "has_alert_word",
            MessageFlag::Historical => "historical",
        }
    }
}

} // verus!
