//! The rows of the mapping store. Instants are milliseconds since the Unix
//! epoch.

use vstd::prelude::*;
use crate::text::str_eq;

verus! {

/// A copy of an optional string.
pub fn clone_opt(s: &Option<String>) -> (r: Option<String>)
    ensures
        r == *s,
{
    match s {
        Some(t) => Some(t.clone()),
        None => None,
    }
}

/// An organization of the team-chat side, with the account that the
/// bridge uses there.
#[derive(Debug)]
pub struct Organization {
    pub id: String,
    pub name: String,
    pub site: String,
    pub email: String,
    pub api_key: String,
    pub connected: bool,
    pub max_backfill_amount: i32,
    pub created_at: i64,
    pub updated_at: i64,
}

impl Clone for Organization {
    fn clone(&self) -> (r: Self)
        ensures
            r == *self,
    {
        Organization {
            id: self.id.clone(),
            name: self.name.clone(),
            site: self.site.clone(),
            email: self.email.clone(),
            api_key: self.api_key.clone(),
            connected: self.connected,
            max_backfill_amount: self.max_backfill_amount,
            created_at: self.created_at,
            updated_at: self.updated_at,
        }
    }
}

/// The new state of an organization.
#[derive(Debug, Clone)]
pub struct OrganizationChangeset {
    pub name: String,
    pub site: String,
    pub email: String,
    pub api_key: String,
    pub connected: bool,
    pub max_backfill_amount: i32,
    pub updated_at: i64,
}

/// A room of the federated side and the stream, or the topic of a stream,
/// that it stands for.
#[derive(Debug)]
pub struct RoomMapping {
    pub id: i64,
    pub matrix_room_id: String,
    pub zulip_stream_id: i64,
    pub zulip_stream_name: String,
    pub zulip_topic: Option<String>,
    pub organization_id: String,
    pub room_type: String,
    pub created_at: i64,
    pub updated_at: i64,
}

impl Clone for RoomMapping {
    fn clone(&self) -> (r: Self)
        ensures
            r == *self,
    {
        RoomMapping {
            id: self.id,
            matrix_room_id: self.matrix_room_id.clone(),
            zulip_stream_id: self.zulip_stream_id,
            zulip_stream_name: self.zulip_stream_name.clone(),
            zulip_topic: clone_opt(&self.zulip_topic),
            organization_id: self.organization_id.clone(),
            room_type: self.room_type.clone(),
            created_at: self.created_at,
            updated_at: self.updated_at,
        }
    }
}

/// A room mapping that is not stored yet.
#[derive(Debug, Clone)]
pub struct NewRoomMapping {
    pub matrix_room_id: String,
    pub zulip_stream_id: i64,
    pub zulip_stream_name: String,
    pub zulip_topic: Option<String>,
    pub organization_id: String,
    pub room_type: String,
}

/// A ghost and the user of the team-chat side that it stands for.
#[derive(Debug)]
pub struct UserMapping {
    pub id: i64,
    pub matrix_user_id: String,
    pub zulip_user_id: i64,
    pub zulip_email: Option<String>,
    pub display_name: Option<String>,
    pub avatar_url: Option<String>,
    pub is_bot: bool,
    pub created_at: i64,
    pub updated_at: i64,
}

impl Clone for UserMapping {
    fn clone(&self) -> (r: Self)
        ensures
            r == *self,
    {
        UserMapping {
            id: self.id,
            matrix_user_id: self.matrix_user_id.clone(),
            zulip_user_id: self.zulip_user_id,
            zulip_email: clone_opt(&self.zulip_email),
            display_name: clone_opt(&self.display_name),
            avatar_url: clone_opt(&self.avatar_url),
            is_bot: self.is_bot,
            created_at: self.created_at,
            updated_at: self.updated_at,
        }
    }
}

/// A user mapping that is not stored yet.
#[derive(Debug, Clone)]
pub struct NewUserMapping {
    pub matrix_user_id: String,
    pub zulip_user_id: i64,
    pub zulip_email: Option<String>,
    pub display_name: Option<String>,
    pub avatar_url: Option<String>,
    pub is_bot: bool,
}

/// Changes to a user mapping; an optional field that is left out stays as
/// it is.
#[derive(Debug, Clone)]
pub struct UserMappingChangeset {
    pub zulip_email: Option<String>,
    pub display_name: Option<String>,
    pub avatar_url: Option<String>,
    pub is_bot: bool,
    pub updated_at: i64,
}

/// An event of the federated side and the message of the team-chat side
/// that is its counterpart.
#[derive(Debug)]
pub struct MessageMapping {
    pub id: i64,
    pub matrix_event_id: String,
    pub matrix_room_id: String,
    pub zulip_message_id: i64,
    pub zulip_sender_id: i64,
    pub message_type: String,
    pub created_at: i64,
}

impl Clone for MessageMapping {
    fn clone(&self) -> (r: Self)
        ensures
            r == *self,
    {
        MessageMapping {
            id: self.id,
            matrix_event_id: self.matrix_event_id.clone(),
            matrix_room_id: self.matrix_room_id.clone(),
            zulip_message_id: self.zulip_message_id,
            zulip_sender_id: self.zulip_sender_id,
            message_type: self.message_type.clone(),
            created_at: self.created_at,
        }
    }
}

/// A message mapping that is not stored yet.
#[derive(Debug, Clone)]
pub struct NewMessageMapping {
    pub matrix_event_id: String,
    pub matrix_room_id: String,
    pub zulip_message_id: i64,
    pub zulip_sender_id: i64,
    pub message_type: String,
}

/// The record that an event of one side was processed.
#[derive(Debug)]
pub struct ProcessedEvent {
    pub id: i64,
    pub event_id: String,
    pub event_type: String,
    pub source: String,
    pub processed_at: i64,
}

impl Clone for ProcessedEvent {
    fn clone(&self) -> (r: Self)
        ensures
            r == *self,
    {
        ProcessedEvent {
            id: self.id,
            event_id: self.event_id.clone(),
            event_type: self.event_type.clone(),
            source: self.source.clone(),
            processed_at: self.processed_at,
        }
    }
}

/// The record of a processed event that is not stored yet.
#[derive(Debug, Clone)]
pub struct NewProcessedEvent {
    pub event_id: String,
    pub event_type: String,
    pub source: String,
}

/// A reaction event of the federated side and the reaction of the
/// team-chat side that is its counterpart.
#[derive(Debug)]
pub struct ReactionMapping {
    pub id: i64,
    pub matrix_event_id: String,
    pub zulip_message_id: i64,
    pub zulip_reaction_id: i64,
    pub emoji: String,
    pub matrix_reaction_event_id: String,
    pub created_at: i64,
}

impl Clone for ReactionMapping {
    fn clone(&self) -> (r: Self)
        ensures
            r == *self,
    {
        ReactionMapping {
            id: self.id,
            matrix_event_id: self.matrix_event_id.clone(),
            zulip_message_id: self.zulip_message_id,
            zulip_reaction_id: self.zulip_reaction_id,
            emoji: self.emoji.clone(),
            matrix_reaction_event_id: self.matrix_reaction_event_id.clone(),
            created_at: self.created_at,
        }
    }
}

/// A reaction mapping that is not stored yet.
#[derive(Debug, Clone)]
pub struct NewReactionMapping {
    pub matrix_event_id: String,
    pub zulip_message_id: i64,
    pub zulip_reaction_id: i64,
    pub emoji: String,
    pub matrix_reaction_event_id: String,
}

/// What a room stands for.
#[derive(Debug, Clone, Copy, PartialEq, Eq, Structural)]
pub enum RoomType {
    Stream,
    Direct,
    Topic,
}

impl RoomType {
    /// The name of the room type as the store holds it.
    pub open spec fn name(self) -> Seq<char> {
        match self {
            RoomType::Stream => "stream"@,
            RoomType::Direct => "direct"@,
            RoomType::Topic => "topic"@,
        }
    }

    /// The room type that `s` names.
    pub open spec fn named_by(s: Seq<char>) -> Option<RoomType> {
        if s == "stream"@ {
            Some(RoomType::Stream)
        } else if s == "direct"@ {
            Some(RoomType::Direct)
        } else if s == "topic"@ {
            Some(RoomType::Topic)
        } else {
            None
        }
    }

    /// The name of the room type.
    pub fn as_str(&self) -> (r: &'static str)
        ensures
            r@ == self.name(),
    {
        match self {
            RoomType::Stream => "stream",
            RoomType::Direct => "direct",
            RoomType::Topic => "topic",
        }
    }

    /// The room type that `s` names, if it names one.
    pub fn from_str(s: &str) -> (r: Option<Self>)
        ensures
            r == Self::named_by(s@),
    {
        if str_eq(s, "stream") {
            Some(RoomType::Stream)
        } else if str_eq(s, "direct") {
            Some(RoomType::Direct)
        } else if str_eq(s, "topic") {
            Some(RoomType::Topic)
        } else {
            None
        }
    }

    /// The name of the room type, as an owned string.
    pub fn to_text(&self) -> (r: String)
        ensures
            r@ == self.name(),
    {
        self.as_str().to_owned()
    }
}

/// Every room type is named by its own name.
pub proof fn lemma_room_type_round_trip(t: RoomType)
    ensures
        RoomType::named_by(t.name()) == Some(t),
{
    reveal_strlit("stream");
    reveal_strlit("direct");
    reveal_strlit("topic");
    assert("stream"@[0] == 's');
    assert("direct"@[0] == 'd');
    assert("topic"@[0] == 't');
}

/// What a message carries.
#[derive(Debug, Clone, Copy, PartialEq, Eq, Structural)]
pub enum MessageType {
    Text,
    Image,
    Video,
    Audio,
    File,
    Emote,
}

impl MessageType {
    /// The name of the message type as the store holds it.
    pub open spec fn name(self) -> Seq<char> {
        match self {
            MessageType::Text => "text"@,
            MessageType::Image => "image"@,
            MessageType::Video => "video"@,
            MessageType::Audio => "audio"@,
            MessageType::File => "file"@,
            MessageType::Emote => "emote"@,
        }
    }

    /// The message type that `s` names.
    pub open spec fn named_by(s: Seq<char>) -> Option<MessageType> {
        if s == "text"@ {
            Some(MessageType::Text)
        } else if s == "image"@ {
            Some(MessageType::Image)
        } else if s == "video"@ {
            Some(MessageType::Video)
        } else if s == "audio"@ {
            Some(MessageType::Audio)
        } else if s == "file"@ {
            Some(MessageType::File)
        } else if s == "emote"@ {
            Some(MessageType::Emote)
        } else {
            None
        }
    }

    /// The name of the message type.
    pub fn as_str(&self) -> (r: &'static str)
        ensures
            r@ == self.name(),
    {
        match self {
            MessageType::Text => "text",
            MessageType::Image => "image",
            MessageType::Video => "video",
            MessageType::Audio => "audio",
            MessageType::File => "file",
            MessageType::Emote => "emote",
        }
    }

    /// The message type that `s` names, if it names one.
    pub fn from_str(s: &str) -> (r: Option<Self>)
        ensures
            r == Self::named_by(s@),
    {
        if str_eq(s, "text") {
            Some(MessageType::Text)
        } else if str_eq(s, "image") {
            Some(MessageType::Image)
        } else if str_eq(s, "video") {
            Some(MessageType::Video)
        } else if str_eq(s, "audio") {
            Some(MessageType::Audio)
        } else if str_eq(s, "file") {
            Some(MessageType::File)
        } else if str_eq(s, "emote") {
            Some(MessageType::Emote)
        } else {
            None
        }
    }

    /// The name of the message type, as an owned string.
    pub fn to_text(&self) -> (r: String)
        ensures
            r@ == self.name(),
    {
        self.as_str().to_owned()
    }
}

/// Every message type is named by its own name.
pub proof fn lemma_message_type_round_trip(t: MessageType)
    ensures
        MessageType::named_by(t.name()) == Some(t),
{
    reveal_strlit("text");
    reveal_strlit("image");
    reveal_strlit("video");
    reveal_strlit("audio");
    reveal_strlit("file");
    reveal_strlit("emote");
    assert("text"@[0] == 't');
    assert("image"@[0] == 'i');
    assert("video"@[0] == 'v');
    assert("audio"@[0] == 'a');
    assert("file"@[0] == 'f');
    assert("emote"@[0] == 'e');
}

} // verus!
