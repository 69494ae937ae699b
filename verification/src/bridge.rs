//! The core of the bridge: what an event of one side calls for on the other
//! side, and what is remembered once that was done.
//!
//! Every event is handled in two steps. A plan says what to do on the
//! other side; it reads the mapping store and writes nothing there but the
//! ghost that a sender needs. Once the call that the plan asks for has
//! succeeded, the completion stores the mapping that ties the two sides
//! together and records the event as processed.

use vstd::prelude::*;
use vstd::string::StringExecFns;
use crate::db::error::DatabaseError;
use crate::db::manager::DatabaseManager;
use crate::db::models::{
    MessageMapping, NewMessageMapping, NewProcessedEvent, NewReactionMapping, NewRoomMapping,
    ReactionMapping, RoomMapping,
};
use crate::matrix::ghost::GhostUserInfo;
use crate::matrix::{
    message_content_of, reaction_content_of, MatrixAppservice, OutboundEvent, Redaction,
};
use crate::db::stores::event_store::event_has_event_id;
use crate::db::stores::message_store::{
    message_conflicts, message_has_matrix_event, message_has_zulip_message, new_message_row,
};
use crate::db::stores::reaction_store::{
    new_reaction_row, reaction_conflicts, reaction_has_matrix_reaction, reaction_on_message,
};
use crate::db::stores::room_store::{room_has_matrix_room, room_has_zulip_stream};
use crate::db::stores::{find_first, lemma_find_first, without};
use crate::matrix::event_handler::{age_admits, kind_of, MatrixEventKind};
use crate::matrix::{
    in_ghost_namespace, is_namespaced_user, relation_of, relation_view, MatrixEvent, Relation,
    RelationView,
};
use crate::json::{find_member, member_from, object_view, Json, JsonValue};
use crate::text::{
    chars_of, decimal, opt_str_view, opt_view, push_char, push_decimal, str_eq,
};
use crate::zulip::event_handler::{tracked_id, zulip_kind_of, zulip_event_kind, ZulipEventKind};
use crate::zulip::types::{ZulipEvent, ZulipMessage};

verus! {

/// The topic of a message into a room that is mapped to a whole stream.
pub open spec fn no_topic() -> Seq<char> {
    "(no topic)"@
}

/// The side that events of the federated side are recorded under.
pub open spec fn matrix_source() -> Seq<char> {
    "matrix"@
}

/// The side that events of the team-chat side are recorded under.
pub open spec fn zulip_source() -> Seq<char> {
    "zulip"@
}

/// Why nothing is done about an event.
#[derive(Debug, Clone, Copy, PartialEq, Eq, Structural)]
pub enum Skipped {
    /// The event is older than the age limit.
    TooOld,
    /// The event was recorded as processed before.
    AlreadyProcessed,
    /// The event is of a type that nothing is done about.
    NotBridged,
    /// The room or the stream of the event is not mapped.
    UnknownRoom,
    /// The sender is a ghost: the event is the echo of what the bridge
    /// itself sent for a user of the other side.
    FromGhost,
    /// The other side holds the event already: it is the echo of what the
    /// bridge itself sent.
    Echo,
    /// The event that this one relates to has no counterpart.
    UnknownTarget,
    /// The event lacks what is needed to bridge it.
    Malformed,
}

/// What an event of the federated side calls for on the team-chat side.
#[derive(Debug, Clone)]
pub enum MatrixPlan {
    /// Nothing.
    Skip(Skipped),
    /// Send `content` to the topic `topic` of the stream `stream_id`.
    SendStream { stream_id: i64, topic: String, content: String },
    /// Make `content` the content of the message `message_id`.
    EditMessage { message_id: i64, content: String },
    /// Delete the message `message_id`.
    DeleteMessage { message_id: i64 },
    /// Add the emoji `emoji` as a reaction to the message `message_id`.
    AddReaction { message_id: i64, emoji: String },
    /// Remove the emoji `emoji` from the reactions to the message
    /// `message_id`.
    RemoveReaction { message_id: i64, emoji: String },
}

/// The mathematical value of a [`MatrixPlan`].
pub enum MatrixPlanView {
    Skip(Skipped),
    SendStream { stream_id: i64, topic: Seq<char>, content: Seq<char> },
    EditMessage { message_id: i64, content: Seq<char> },
    DeleteMessage { message_id: i64 },
    AddReaction { message_id: i64, emoji: Seq<char> },
    RemoveReaction { message_id: i64, emoji: Seq<char> },
}

impl View for MatrixPlan {
    type V = MatrixPlanView;

    open spec fn view(&self) -> MatrixPlanView {
        match self {
            MatrixPlan::Skip(why) => MatrixPlanView::Skip(*why),
            MatrixPlan::SendStream { stream_id, topic, content } => MatrixPlanView::SendStream {
                stream_id: *stream_id,
                topic: topic@,
                content: content@,
            },
            MatrixPlan::EditMessage { message_id, content } => MatrixPlanView::EditMessage {
                message_id: *message_id,
                content: content@,
            },
            MatrixPlan::DeleteMessage { message_id } => MatrixPlanView::DeleteMessage {
                message_id: *message_id,
            },
            MatrixPlan::AddReaction { message_id, emoji } => MatrixPlanView::AddReaction {
                message_id: *message_id,
                emoji: emoji@,
            },
            MatrixPlan::RemoveReaction { message_id, emoji } => MatrixPlanView::RemoveReaction {
                message_id: *message_id,
                emoji: emoji@,
            },
        }
    }
}

/// The pointer that the content of a reply carries to the message
/// `message_id` that it replies to.
pub open spec fn reply_reference(message_id: i64) -> Seq<char> {
    "[in reply to](#narrow/near/"@ + decimal(message_id as int) + ")\n"@
}

/// The topic that a message into the room of `room` goes to.
pub open spec fn topic_of(room: RoomMapping) -> Seq<char> {
    match room.zulip_topic {
        Some(t) => t@,
        None => no_topic(),
    }
}

/// What a room message calls for, given the mapping `room` of its room and
/// the mapping `target` of the event that it replies to or edits.
///
/// A message in a room that is not mapped, and one that a ghost sent, call
/// for nothing. An edit whose target has a counterpart makes the new text
/// the content of that counterpart. Any other message with a text is
/// sent to the stream of the room, under the topic of the mapping; a
/// reply to an event that has a counterpart points at that counterpart.
pub open spec fn matrix_message_plan(
    sender: Seq<char>,
    body: Option<Seq<char>>,
    new_body: Option<Seq<char>>,
    relation: Option<RelationView>,
    room: Option<RoomMapping>,
    target: Option<MessageMapping>,
) -> MatrixPlanView {
    match room {
        None => MatrixPlanView::Skip(Skipped::UnknownRoom),
        Some(room) => if in_ghost_namespace(sender) {
            MatrixPlanView::Skip(Skipped::FromGhost)
        } else {
            match relation {
                Some(RelationView::Edit { event_id }) => match target {
                    None => MatrixPlanView::Skip(Skipped::UnknownTarget),
                    Some(target) => match new_body {
                        Some(text) => MatrixPlanView::EditMessage {
                            message_id: target.zulip_message_id,
                            content: text,
                        },
                        None => MatrixPlanView::Skip(Skipped::Malformed),
                    },
                },
                Some(RelationView::Reply { event_id }) => match body {
                    None => MatrixPlanView::Skip(Skipped::Malformed),
                    Some(text) => MatrixPlanView::SendStream {
                        stream_id: room.zulip_stream_id,
                        topic: topic_of(room),
                        content: match target {
                            Some(target) => reply_reference(target.zulip_message_id) + text,
                            None => text,
                        },
                    },
                },
                _ => match body {
                    None => MatrixPlanView::Skip(Skipped::Malformed),
                    Some(text) => MatrixPlanView::SendStream {
                        stream_id: room.zulip_stream_id,
                        topic: topic_of(room),
                        content: text,
                    },
                },
            }
        },
    }
}

fn topic_for(room: &RoomMapping) -> (r: String)
    ensures
        r@ == topic_of(*room),
{
    match &room.zulip_topic {
        Some(t) => t.clone(),
        None => String::from_str("(no topic)"),
    }
}

/// Plans what a room message calls for.
pub fn plan_matrix_message(
    event: &MatrixEvent,
    room: Option<&RoomMapping>,
    target: Option<&MessageMapping>,
) -> (plan: MatrixPlan)
    ensures
        plan@ == matrix_message_plan(
            event.sender@,
            event.content_text("body"@),
            event.new_body_text(),
            match event.relates_to() {
                Some(rel) => relation_of(rel),
                None => None,
            },
            match room {
                Some(r) => Some(*r),
                None => None,
            },
            match target {
                Some(t) => Some(*t),
                None => None,
            },
        ),
{
    let room = match room {
        Some(r) => r,
        None => {
            return MatrixPlan::Skip(Skipped::UnknownRoom);
        },
    };
    if is_namespaced_user(event.sender.as_str()) {
        return MatrixPlan::Skip(Skipped::FromGhost);
    }
    match event.relation() {
        Some(Relation::Edit { event_id: _ }) => {
            let target = match target {
                Some(t) => t,
                None => {
                    return MatrixPlan::Skip(Skipped::UnknownTarget);
                },
            };
            match event.new_body() {
                Some(text) => MatrixPlan::EditMessage {
                    message_id: target.zulip_message_id,
                    content: text.to_owned(),
                },
                None => MatrixPlan::Skip(Skipped::Malformed),
            }
        },
        Some(Relation::Reply { event_id: _ }) => {
            match event.body() {
                None => MatrixPlan::Skip(Skipped::Malformed),
                Some(text) => {
                    let content = match target {
                        Some(t) => {
                            let mut c = String::from_str("[in reply to](#narrow/near/");
                            push_decimal(&mut c, t.zulip_message_id);
                            c.append(")\n");
                            c.append(text);
                            c
                        },
                        None => text.to_owned(),
                    };
                    MatrixPlan::SendStream {
                        stream_id: room.zulip_stream_id,
                        topic: topic_for(room),
                        content,
                    }
                },
            }
        },
        _ => {
            match event.body() {
                None => MatrixPlan::Skip(Skipped::Malformed),
                Some(text) => MatrixPlan::SendStream {
                    stream_id: room.zulip_stream_id,
                    topic: topic_for(room),
                    content: text.to_owned(),
                },
            }
        },
    }
}

/// What a reaction calls for, given the mapping `target` of the event that
/// it reacts to: the same emoji on the counterpart of that event, unless a
/// ghost sent the reaction or the event has no counterpart.
pub open spec fn matrix_reaction_plan(
    sender: Seq<char>,
    relation: Option<RelationView>,
    target: Option<MessageMapping>,
) -> MatrixPlanView {
    if in_ghost_namespace(sender) {
        MatrixPlanView::Skip(Skipped::FromGhost)
    } else {
        match relation {
            Some(RelationView::Reaction { event_id, key }) => match target {
                Some(target) => MatrixPlanView::AddReaction {
                    message_id: target.zulip_message_id,
                    emoji: key,
                },
                None => MatrixPlanView::Skip(Skipped::UnknownTarget),
            },
            _ => MatrixPlanView::Skip(Skipped::Malformed),
        }
    }
}

/// Plans what a reaction calls for.
pub fn plan_matrix_reaction(event: &MatrixEvent, target: Option<&MessageMapping>) -> (plan:
    MatrixPlan)
    ensures
        plan@ == matrix_reaction_plan(
            event.sender@,
            match event.relates_to() {
                Some(rel) => relation_of(rel),
                None => None,
            },
            match target {
                Some(t) => Some(*t),
                None => None,
            },
        ),
{
    if is_namespaced_user(event.sender.as_str()) {
        return MatrixPlan::Skip(Skipped::FromGhost);
    }
    match event.relation() {
        Some(Relation::Reaction { event_id: _, key }) => match target {
            Some(t) => MatrixPlan::AddReaction { message_id: t.zulip_message_id, emoji: key },
            None => MatrixPlan::Skip(Skipped::UnknownTarget),
        },
        _ => MatrixPlan::Skip(Skipped::Malformed),
    }
}

/// What a redaction calls for, given the mappings of the event that it
/// removes: the removal of the reaction where the event is a bridged
/// reaction, the deletion of the message where it is a bridged message,
/// and nothing where it is neither or where a ghost made the redaction.
pub open spec fn matrix_redaction_plan(
    sender: Seq<char>,
    redacts: Option<Seq<char>>,
    reaction: Option<ReactionMapping>,
    message: Option<MessageMapping>,
) -> MatrixPlanView {
    if in_ghost_namespace(sender) {
        MatrixPlanView::Skip(Skipped::FromGhost)
    } else if redacts is None {
        MatrixPlanView::Skip(Skipped::Malformed)
    } else {
        match reaction {
            Some(r) => MatrixPlanView::RemoveReaction {
                message_id: r.zulip_message_id,
                emoji: r.emoji@,
            },
            None => match message {
                Some(m) => MatrixPlanView::DeleteMessage { message_id: m.zulip_message_id },
                None => MatrixPlanView::Skip(Skipped::UnknownTarget),
            },
        }
    }
}

/// Plans what a redaction calls for.
pub fn plan_matrix_redaction(
    event: &MatrixEvent,
    reaction: Option<&ReactionMapping>,
    message: Option<&MessageMapping>,
) -> (plan: MatrixPlan)
    ensures
        plan@ == matrix_redaction_plan(
            event.sender@,
            event.redacted_event(),
            match reaction {
                Some(r) => Some(*r),
                None => None,
            },
            match message {
                Some(m) => Some(*m),
                None => None,
            },
        ),
{
    if is_namespaced_user(event.sender.as_str()) {
        return MatrixPlan::Skip(Skipped::FromGhost);
    }
    if event.redacts().is_none() {
        return MatrixPlan::Skip(Skipped::Malformed);
    }
    match reaction {
        Some(r) => MatrixPlan::RemoveReaction {
            message_id: r.zulip_message_id,
            emoji: r.emoji.clone(),
        },
        None => match message {
            Some(m) => MatrixPlan::DeleteMessage { message_id: m.zulip_message_id },
            None => MatrixPlan::Skip(Skipped::UnknownTarget),
        },
    }
}

/// The mapping of the event that `relation` points at.
pub open spec fn related_message(
    relation: Option<RelationView>,
    messages: Seq<MessageMapping>,
) -> Option<
    MessageMapping,
> {
    match relation {
        Some(RelationView::Reply { event_id }) => find_first(
            messages,
            message_has_matrix_event(event_id),
        ),
        Some(RelationView::Edit { event_id }) => find_first(
            messages,
            message_has_matrix_event(event_id),
        ),
        Some(RelationView::Reaction { event_id, key }) => find_first(
            messages,
            message_has_matrix_event(event_id),
        ),
        None => None,
    }
}

/// The relation that an event declares.
pub open spec fn event_relation(event: MatrixEvent) -> Option<RelationView> {
    match event.relates_to() {
        Some(rel) => relation_of(rel),
        None => None,
    }
}

/// Whether an event is recorded as processed.
pub open spec fn is_recorded(
    event_id: Option<Seq<char>>,
    events: Seq<crate::db::models::ProcessedEvent>,
) -> bool {
    match event_id {
        Some(id) => find_first(events, event_has_event_id(id)) is Some,
        None => false,
    }
}

/// The mapping of the reaction event that a redaction removes.
pub open spec fn redacted_reaction(
    redacts: Option<Seq<char>>,
    reactions: Seq<ReactionMapping>,
) -> Option<ReactionMapping> {
    match redacts {
        Some(id) => find_first(reactions, reaction_has_matrix_reaction(id)),
        None => None,
    }
}

/// The mapping of the message event that a redaction removes.
pub open spec fn redacted_message(
    redacts: Option<Seq<char>>,
    messages: Seq<MessageMapping>,
) -> Option<
    MessageMapping,
> {
    match redacts {
        Some(id) => find_first(messages, message_has_matrix_event(id)),
        None => None,
    }
}

/// What an event of the federated side calls for, seen at `now` under the
/// age limit `age_limit_ms`, with the mapping store holding the given
/// rows.
///
/// An event older than the limit calls for nothing, whatever else holds of
/// it; next, one that is recorded as processed calls for nothing; next,
/// one of a type other than message, reaction and redaction calls for
/// nothing. What remains is planned by its kind.
pub open spec fn matrix_plan_of(
    event: MatrixEvent,
    now: i64,
    age_limit_ms: i64,
    rooms: Seq<RoomMapping>,
    messages: Seq<MessageMapping>,
    reactions: Seq<ReactionMapping>,
    events: Seq<crate::db::models::ProcessedEvent>,
) -> MatrixPlanView {
    if !age_admits(event.timestamp, now, age_limit_ms) {
        MatrixPlanView::Skip(Skipped::TooOld)
    } else if is_recorded(opt_view(event.event_id), events) {
        MatrixPlanView::Skip(Skipped::AlreadyProcessed)
    } else {
        match kind_of(event.event_type@) {
            Some(MatrixEventKind::RoomMessage) => matrix_message_plan(
                event.sender@,
                event.content_text("body"@),
                event.new_body_text(),
                event_relation(event),
                find_first(rooms, room_has_matrix_room(event.room_id@)),
                related_message(event_relation(event), messages),
            ),
            Some(MatrixEventKind::Reaction) => matrix_reaction_plan(
                event.sender@,
                event_relation(event),
                related_message(event_relation(event), messages),
            ),
            Some(MatrixEventKind::RoomRedaction) => matrix_redaction_plan(
                event.sender@,
                event.redacted_event(),
                redacted_reaction(event.redacted_event(), reactions),
                redacted_message(event.redacted_event(), messages),
            ),
            _ => MatrixPlanView::Skip(Skipped::NotBridged),
        }
    }
}

/// The core of the bridge over a mapping store held in memory.
pub struct BridgeCore {
    pub store: DatabaseManager,
    pub organization_id: String,
    pub age_limit_ms: i64,
    pub bot_zulip_user_id: i64,
}

impl BridgeCore {
    /// The invariant of the core: that of its mapping store.
    pub open spec fn wf(&self) -> bool {
        self.store.wf()
    }

    /// A core for the streams of the organization `organization_id`, over
    /// the mapping store `store`, with the age limit `age_limit_ms` for
    /// events of the federated side, which speaks on the team-chat side as
    /// the user `bot_zulip_user_id`.
    pub fn new(
        store: DatabaseManager,
        organization_id: &str,
        age_limit_ms: i64,
        bot_zulip_user_id: i64,
    ) -> (r: Self)
        ensures
            r.store == store,
            r.organization_id@ == organization_id@,
            r.age_limit_ms == age_limit_ms,
            r.bot_zulip_user_id == bot_zulip_user_id,
    {
        BridgeCore {
            store,
            organization_id: organization_id.to_owned(),
            age_limit_ms,
            bot_zulip_user_id,
        }
    }

    fn find_related(&self, relation: &Option<Relation>) -> (r: Option<MessageMapping>)
        ensures
            r == related_message(relation_view(*relation), self.store.messages()),
    {
        match relation {
            Some(Relation::Reply { event_id }) => self.store.message_store.get_by_matrix_event(
                event_id.as_str(),
            ),
            Some(Relation::Edit { event_id }) => self.store.message_store.get_by_matrix_event(
                event_id.as_str(),
            ),
            Some(Relation::Reaction { event_id, key: _ }) => {
                self.store.message_store.get_by_matrix_event(event_id.as_str())
            },
            None => None,
        }
    }

    fn recorded(&self, event_id: &Option<String>) -> (r: bool)
        ensures
            r == is_recorded(opt_view(*event_id), self.store.events()),
    {
        match event_id {
            Some(id) => self.store.event_store.exists_by_event_id(id.as_str()),
            None => false,
        }
    }

    /// Plans what an event of the federated side calls for, seen at `now`.
    /// Nothing is written.
    pub fn plan_matrix_event(&self, event: &MatrixEvent, now: i64) -> (plan: MatrixPlan)
        ensures
            plan@ == matrix_plan_of(
                *event,
                now,
                self.age_limit_ms,
                self.store.rooms(),
                self.store.messages(),
                self.store.reactions(),
                self.store.events(),
            ),
    {
        if !crate::matrix::event_handler::MatrixEventProcessor::<
            crate::matrix::event_handler::DefaultMatrixEventHandler,
        >::check_event_age(event, self.age_limit_ms, now) {
            return MatrixPlan::Skip(Skipped::TooOld);
        }
        if self.recorded(&event.event_id) {
            return MatrixPlan::Skip(Skipped::AlreadyProcessed);
        }
        match crate::matrix::event_handler::event_kind(event.event_type.as_str()) {
            Some(MatrixEventKind::RoomMessage) => {
                let room = self.store.room_store.get_by_matrix_room(event.room_id.as_str());
                let relation = event.relation();
                let target = self.find_related(&relation);
                plan_matrix_message(event, room.as_ref(), target.as_ref())
            },
            Some(MatrixEventKind::Reaction) => {
                let relation = event.relation();
                let target = self.find_related(&relation);
                plan_matrix_reaction(event, target.as_ref())
            },
            Some(MatrixEventKind::RoomRedaction) => {
                let (reaction, message) = match event.redacts() {
                    Some(id) => (
                        self.store.reaction_store.get_by_matrix_reaction(id),
                        self.store.message_store.get_by_matrix_event(id),
                    ),
                    None => (None, None),
                };
                plan_matrix_redaction(event, reaction.as_ref(), message.as_ref())
            },
            _ => MatrixPlan::Skip(Skipped::NotBridged),
        }
    }
}

/// The mapping that ties the event `matrix_event_id` of the room
/// `matrix_room_id` to the text message `zulip_message_id` of the sender
/// `zulip_sender_id`.
pub fn message_mapping(
    matrix_event_id: &str,
    matrix_room_id: &str,
    zulip_message_id: i64,
    zulip_sender_id: i64,
) -> (r: NewMessageMapping)
    ensures
        r.matrix_event_id@ == matrix_event_id@,
        r.matrix_room_id@ == matrix_room_id@,
        r.zulip_message_id == zulip_message_id,
        r.zulip_sender_id == zulip_sender_id,
        r.message_type@ == "text"@,
{
    NewMessageMapping {
        matrix_event_id: matrix_event_id.to_owned(),
        matrix_room_id: matrix_room_id.to_owned(),
        zulip_message_id,
        zulip_sender_id,
        message_type: String::from_str("text"),
    }
}

/// The mapping that ties the reaction event `matrix_reaction_event_id`,
/// made with `emoji` to the event `matrix_event_id`, to the reaction
/// `zulip_reaction_id` to the message `zulip_message_id`.
pub fn reaction_mapping(
    matrix_event_id: &str,
    zulip_message_id: i64,
    zulip_reaction_id: i64,
    emoji: &str,
    matrix_reaction_event_id: &str,
) -> (r: NewReactionMapping)
    ensures
        r.matrix_event_id@ == matrix_event_id@,
        r.zulip_message_id == zulip_message_id,
        r.zulip_reaction_id == zulip_reaction_id,
        r.emoji@ == emoji@,
        r.matrix_reaction_event_id@ == matrix_reaction_event_id@,
{
    NewReactionMapping {
        matrix_event_id: matrix_event_id.to_owned(),
        zulip_message_id,
        zulip_reaction_id,
        emoji: emoji.to_owned(),
        matrix_reaction_event_id: matrix_reaction_event_id.to_owned(),
    }
}

/// The record of the event `event_id` of the type `event_type` from the
/// side `source`.
pub fn processed_event(event_id: &str, event_type: &str, source: &str) -> (r: NewProcessedEvent)
    ensures
        r.event_id@ == event_id@,
        r.event_type@ == event_type@,
        r.source@ == source@,
{
    NewProcessedEvent {
        event_id: event_id.to_owned(),
        event_type: event_type.to_owned(),
        source: source.to_owned(),
    }
}

/// The mapping of the room `matrix_room_id` to the whole stream
/// `stream_id`, named `stream_name`, of the organization
/// `organization_id`.
pub fn stream_room_mapping(
    organization_id: &str,
    stream_id: i64,
    stream_name: &str,
    matrix_room_id: &str,
) -> (r: NewRoomMapping)
    ensures
        r.matrix_room_id@ == matrix_room_id@,
        r.zulip_stream_id == stream_id,
        r.zulip_stream_name@ == stream_name@,
        r.zulip_topic is None,
        r.organization_id@ == organization_id@,
        r.room_type@ == "stream"@,
{
    NewRoomMapping {
        matrix_room_id: matrix_room_id.to_owned(),
        zulip_stream_id: stream_id,
        zulip_stream_name: stream_name.to_owned(),
        zulip_topic: None,
        organization_id: organization_id.to_owned(),
        room_type: String::from_str("stream"),
    }
}

/// What the tables of mappings are to do with one mapping.
#[derive(Debug)]
pub enum MappingChange {
    /// Nothing.
    Keep,
    /// Store the mapping of a message.
    StoreMessage(NewMessageMapping),
    /// Store the mapping of a reaction.
    StoreReaction(NewReactionMapping),
    /// Drop the mapping of the message that the named event carried.
    DropMessage(String),
    /// Drop the mapping of the reaction that the named event carried.
    DropReaction(String),
    /// Drop what the named event carried, be it a message or a reaction.
    DropEither(String),
}

/// What the mapping store is to do once the call that a plan asked for has
/// succeeded: first the change to the mappings, then the record of the
/// event.
#[derive(Debug)]
pub struct StoreChange {
    pub mapping: MappingChange,
    pub record: Option<NewProcessedEvent>,
}

/// Whether `row` is the record of the event `event_id` of the type
/// `event_type` from the side `source`.
pub open spec fn is_record(
    row: NewProcessedEvent,
    event_id: Seq<char>,
    event_type: Seq<char>,
    source: Seq<char>,
) -> bool {
    row.event_id@ == event_id && row.event_type@ == event_type && row.source@ == source
}

/// Whether `row` ties the event `matrix_event_id` of the room
/// `matrix_room_id` to the text message `zulip_message_id` of the sender
/// `zulip_sender_id`.
pub open spec fn is_message_mapping(
    row: NewMessageMapping,
    matrix_event_id: Seq<char>,
    matrix_room_id: Seq<char>,
    zulip_message_id: i64,
    zulip_sender_id: i64,
) -> bool {
    &&& row.matrix_event_id@ == matrix_event_id
    &&& row.matrix_room_id@ == matrix_room_id
    &&& row.zulip_message_id == zulip_message_id
    &&& row.zulip_sender_id == zulip_sender_id
    &&& row.message_type@ == "text"@
}

/// Whether `row` ties the reaction event `matrix_reaction_event_id`, made
/// with `emoji` to the event `matrix_event_id`, to the reaction
/// `zulip_reaction_id` to the message `zulip_message_id`.
pub open spec fn is_reaction_mapping(
    row: NewReactionMapping,
    matrix_event_id: Seq<char>,
    zulip_message_id: i64,
    zulip_reaction_id: i64,
    emoji: Seq<char>,
    matrix_reaction_event_id: Seq<char>,
) -> bool {
    &&& row.matrix_event_id@ == matrix_event_id
    &&& row.zulip_message_id == zulip_message_id
    &&& row.zulip_reaction_id == zulip_reaction_id
    &&& row.emoji@ == emoji
    &&& row.matrix_reaction_event_id@ == matrix_reaction_event_id
}

/// Whether the completion of `plan` lacks what it needs of `event` and of
/// the answer: the id of the event, the id of the message that was sent,
/// the target of the reaction, or the event that the redaction removes.
pub open spec fn matrix_change_lacks(
    event: MatrixEvent,
    plan: MatrixPlanView,
    sent_message_id: Option<i64>,
) -> bool {
    event.event_id is None || match plan {
        MatrixPlanView::SendStream { stream_id, topic, content } => sent_message_id is None,
        MatrixPlanView::AddReaction { message_id, emoji } => !(event_relation(event) is Some
            && event_relation(event)->0 is Reaction),
        MatrixPlanView::RemoveReaction { message_id, emoji } => event.redacted_event() is None,
        MatrixPlanView::DeleteMessage { message_id } => event.redacted_event() is None,
        _ => false,
    }
}

/// Whether `change` is what the mapping store is to do once `plan` was
/// carried out for `event` and answered with `sent_message_id`: the
/// mapping that the plan makes or unmakes, and the record of the event. A
/// reaction is stored under `reaction_id`.
pub open spec fn is_matrix_change(
    change: StoreChange,
    event: MatrixEvent,
    plan: MatrixPlanView,
    sent_message_id: Option<i64>,
    bot_zulip_user_id: i64,
    reaction_id: i64,
) -> bool {
    &&& match change.record {
        Some(row) => is_record(row, event.event_id->0@, event.event_type@, matrix_source()),
        None => false,
    }
    &&& match plan {
        MatrixPlanView::SendStream { stream_id, topic, content } => match change.mapping {
            MappingChange::StoreMessage(row) => is_message_mapping(
                row,
                event.event_id->0@,
                event.room_id@,
                sent_message_id->0,
                bot_zulip_user_id,
            ),
            _ => false,
        },
        MatrixPlanView::AddReaction { message_id, emoji } => match change.mapping {
            MappingChange::StoreReaction(row) => is_reaction_mapping(
                row,
                event_relation(event)->0->Reaction_event_id,
                message_id,
                reaction_id,
                emoji,
                event.event_id->0@,
            ),
            _ => false,
        },
        MatrixPlanView::RemoveReaction { message_id, emoji } => match change.mapping {
            MappingChange::DropReaction(id) => id@ == event.redacted_event()->0,
            _ => false,
        },
        MatrixPlanView::DeleteMessage { message_id } => match change.mapping {
            MappingChange::DropMessage(id) => id@ == event.redacted_event()->0,
            _ => false,
        },
        _ => change.mapping is Keep,
    }
}

/// What the mapping store is to do once `plan` was carried out for `event`
/// and answered with `sent_message_id`, the id that the team-chat side gave
/// the message that was sent, where one was sent. A plan to do nothing
/// asks nothing of the store. Fails where what the plan needs is lacking.
/// `reaction_id` is the id under which a reaction is to be stored: one
/// that no stored reaction has.
pub fn matrix_store_change(
    event: &MatrixEvent,
    plan: &MatrixPlan,
    sent_message_id: Option<i64>,
    bot_zulip_user_id: i64,
    reaction_id: i64,
) -> (r: Result<Option<StoreChange>, DatabaseError>)
    ensures
        match r {
            Ok(None) => plan@ is Skip,
            Ok(Some(change)) => {
                &&& !(plan@ is Skip)
                &&& !matrix_change_lacks(*event, plan@, sent_message_id)
                &&& is_matrix_change(
                    change,
                    *event,
                    plan@,
                    sent_message_id,
                    bot_zulip_user_id,
                    reaction_id,
                )
            },
            Err(e) => {
                &&& e is InvalidData
                &&& !(plan@ is Skip)
                &&& matrix_change_lacks(*event, plan@, sent_message_id)
            },
        },
{
    if let MatrixPlan::Skip(_) = plan {
        return Ok(None);
    }
    let event_id: &str = match &event.event_id {
        Some(e) => e.as_str(),
        None => {
            return Err(DatabaseError::InvalidData(String::from_str("event without an id")));
        },
    };
    let mapping = match plan {
        MatrixPlan::SendStream { stream_id: _, topic: _, content: _ } => {
            match sent_message_id {
                Some(zulip_message_id) => MappingChange::StoreMessage(
                    message_mapping(
                        event_id,
                        event.room_id.as_str(),
                        zulip_message_id,
                        bot_zulip_user_id,
                    ),
                ),
                None => {
                    return Err(DatabaseError::InvalidData(String::from_str("no message id")));
                },
            }
        },
        MatrixPlan::AddReaction { message_id, emoji } => {
            match event.relation() {
                Some(Relation::Reaction { event_id: target, key: _ }) => {
                    MappingChange::StoreReaction(
                        reaction_mapping(
                            target.as_str(),
                            *message_id,
                            reaction_id,
                            emoji.as_str(),
                            event_id,
                        ),
                    )
                },
                _ => {
                    return Err(
                        DatabaseError::InvalidData(String::from_str("no reaction target")),
                    );
                },
            }
        },
        MatrixPlan::RemoveReaction { message_id: _, emoji: _ } => {
            match event.redacts() {
                Some(id) => MappingChange::DropReaction(id.to_owned()),
                None => {
                    return Err(
                        DatabaseError::InvalidData(String::from_str("no redacted event")),
                    );
                },
            }
        },
        MatrixPlan::DeleteMessage { message_id: _ } => {
            match event.redacts() {
                Some(id) => MappingChange::DropMessage(id.to_owned()),
                None => {
                    return Err(
                        DatabaseError::InvalidData(String::from_str("no redacted event")),
                    );
                },
            }
        },
        _ => MappingChange::Keep,
    };
    let record = processed_event(event_id, event.event_type.as_str(), "matrix");
    Ok(Some(StoreChange { mapping, record: Some(record) }))
}

/// Whether `after` is `before` with one row more at its end.
pub open spec fn appended<R>(before: Seq<R>, after: Seq<R>) -> bool {
    after.len() == before.len() + 1 && after.drop_last() == before
}

/// Whether `row` ties the event `matrix_event_id` of the room
/// `matrix_room_id` to the message `zulip_message_id` of the sender
/// `zulip_sender_id`, as a text message stored under `id` at `now`.
pub open spec fn is_message_row(
    row: MessageMapping,
    id: i64,
    matrix_event_id: Seq<char>,
    matrix_room_id: Seq<char>,
    zulip_message_id: i64,
    zulip_sender_id: i64,
    now: i64,
) -> bool {
    &&& row.id == id
    &&& row.matrix_event_id@ == matrix_event_id
    &&& row.matrix_room_id@ == matrix_room_id
    &&& row.zulip_message_id == zulip_message_id
    &&& row.zulip_sender_id == zulip_sender_id
    &&& row.message_type@ == "text"@
    &&& row.created_at == now
}

/// Whether `row` ties the reaction event `matrix_reaction_event_id`, made
/// with `emoji` to the event `matrix_event_id`, to a reaction to the
/// message `zulip_message_id`, stored under `id` at `now`.
pub open spec fn is_reaction_row(
    row: ReactionMapping,
    id: i64,
    matrix_event_id: Seq<char>,
    zulip_message_id: i64,
    emoji: Seq<char>,
    matrix_reaction_event_id: Seq<char>,
    now: i64,
) -> bool {
    &&& row.id == id
    &&& row.zulip_reaction_id == id
    &&& row.matrix_event_id@ == matrix_event_id
    &&& row.zulip_message_id == zulip_message_id
    &&& row.emoji@ == emoji
    &&& row.matrix_reaction_event_id@ == matrix_reaction_event_id
    &&& row.created_at == now
}

/// Whether `row` records the event `event_id` of the type `event_type`
/// from the side `source` as processed at `now`, under `id`.
pub open spec fn is_event_row(
    row: crate::db::models::ProcessedEvent,
    id: i64,
    event_id: Seq<char>,
    event_type: Seq<char>,
    source: Seq<char>,
    now: i64,
) -> bool {
    &&& row.id == id
    &&& row.event_id@ == event_id
    &&& row.event_type@ == event_type
    &&& row.source@ == source
    &&& row.processed_at == now
}

/// Whether the completion of `plan` for `event` is refused: the event has
/// no id or is recorded already, no row id is left, what the plan needs is
/// missing, or the mapping to store would break a uniqueness constraint.
pub open spec fn matrix_completion_refused(
    store: DatabaseManager,
    event: MatrixEvent,
    plan: MatrixPlanView,
    sent_message_id: Option<i64>,
) -> bool {
    !(plan is Skip) && (event.event_id is None || is_recorded(
        opt_view(event.event_id),
        store.events(),
    ) || store.event_store.next_id() == i64::MAX || match plan {
        MatrixPlanView::SendStream { stream_id, topic, content } => sent_message_id is None
            || store.message_store.next_id() == i64::MAX || exists|i: int|
            0 <= i < store.messages().len() && ((#[trigger] store.messages()[i]).matrix_event_id@
                == event.event_id->0@ || store.messages()[i].zulip_message_id
                == sent_message_id->0),
        MatrixPlanView::AddReaction { message_id, emoji } => !(event_relation(event) is Some
            && event_relation(event)->0 is Reaction) || store.reaction_store.next_id() == i64::MAX
            || exists|i: int|
            0 <= i < store.reactions().len() && ((
            #[trigger] store.reactions()[i]).matrix_reaction_event_id@ == event.event_id->0@
                || store.reactions()[i].zulip_reaction_id == store.reaction_store.next_id()),
        MatrixPlanView::RemoveReaction { message_id, emoji } => event.redacted_event() is None,
        MatrixPlanView::DeleteMessage { message_id } => event.redacted_event() is None,
        _ => false,
    })
}

/// Whether `after` is the store `before` once `plan` was carried out for
/// `event` at `now` and answered with `sent_message_id`: the mapping that
/// the plan makes or unmakes, and the record of the event.
pub open spec fn matrix_completed(
    before: DatabaseManager,
    after: DatabaseManager,
    event: MatrixEvent,
    plan: MatrixPlanView,
    sent_message_id: Option<i64>,
    bot_zulip_user_id: i64,
    now: i64,
) -> bool {
    &&& match plan {
        MatrixPlanView::SendStream { stream_id, topic, content } => {
            &&& appended(before.messages(), after.messages())
            &&& is_message_row(
                after.messages().last(),
                before.message_store.next_id(),
                event.event_id->0@,
                event.room_id@,
                sent_message_id->0,
                bot_zulip_user_id,
                now,
            )
            &&& after.reactions() == before.reactions()
        },
        MatrixPlanView::AddReaction { message_id, emoji } => {
            &&& appended(before.reactions(), after.reactions())
            &&& is_reaction_row(
                after.reactions().last(),
                before.reaction_store.next_id(),
                event_relation(event)->0->Reaction_event_id,
                message_id,
                emoji,
                event.event_id->0@,
                now,
            )
            &&& after.messages() == before.messages()
        },
        MatrixPlanView::RemoveReaction { message_id, emoji } => {
            &&& after.reactions() == without(
                before.reactions(),
                reaction_has_matrix_reaction(event.redacted_event()->0),
            )
            &&& after.messages() == before.messages()
        },
        MatrixPlanView::DeleteMessage { message_id } => {
            &&& after.messages() == without(
                before.messages(),
                message_has_matrix_event(event.redacted_event()->0),
            )
            &&& after.reactions() == before.reactions()
        },
        _ => after.messages() == before.messages() && after.reactions() == before.reactions(),
    }
    &&& if plan is Skip {
        after.events() == before.events()
    } else {
        &&& appended(before.events(), after.events())
        &&& is_event_row(
            after.events().last(),
            before.event_store.next_id(),
            event.event_id->0@,
            event.event_type@,
            matrix_source(),
            now,
        )
    }
}

/// Whether the tables refuse the change `mapping`: the mapping to store
/// would break a uniqueness constraint, or no row id is left for it.
/// Nothing that is dropped is refused.
pub open spec fn mapping_refused(store: DatabaseManager, mapping: MappingChange) -> bool {
    match mapping {
        MappingChange::StoreMessage(row) => store.message_store.next_id() == i64::MAX
            || message_conflicts(store.messages(), row),
        MappingChange::StoreReaction(row) => store.reaction_store.next_id() == i64::MAX
            || reaction_conflicts(store.reactions(), row),
        _ => false,
    }
}

/// Whether `after` holds the mappings of `before` once the change
/// `mapping` was made at `now`.
pub open spec fn mappings_changed(
    before: DatabaseManager,
    after: DatabaseManager,
    mapping: MappingChange,
    now: i64,
) -> bool {
    match mapping {
        MappingChange::Keep => {
            &&& after.messages() == before.messages()
            &&& after.reactions() == before.reactions()
        },
        MappingChange::StoreMessage(row) => {
            &&& after.messages() == before.messages().push(
                new_message_row(row, before.message_store.next_id(), now),
            )
            &&& after.reactions() == before.reactions()
        },
        MappingChange::StoreReaction(row) => {
            &&& after.reactions() == before.reactions().push(
                new_reaction_row(row, before.reaction_store.next_id(), now),
            )
            &&& after.messages() == before.messages()
        },
        MappingChange::DropMessage(id) => {
            &&& after.messages() == without(before.messages(), message_has_matrix_event(id@))
            &&& after.reactions() == before.reactions()
        },
        MappingChange::DropReaction(id) => {
            &&& after.reactions() == without(
                before.reactions(),
                reaction_has_matrix_reaction(id@),
            )
            &&& after.messages() == before.messages()
        },
        MappingChange::DropEither(id) => {
            &&& after.messages() == without(before.messages(), message_has_matrix_event(id@))
            &&& after.reactions() == without(
                before.reactions(),
                reaction_has_matrix_reaction(id@),
            )
        },
    }
}

impl BridgeCore {
    /// Makes the change `mapping` to the tables of mappings, at `now`.
    /// Where the tables refuse it, nothing is changed.
    pub fn change_mappings(&mut self, mapping: MappingChange, now: i64) -> (r: Result<
        (),
        DatabaseError,
    >)
        requires
            old(self).wf(),
        ensures
            final(self).wf(),
            final(self).organization_id == old(self).organization_id,
            final(self).age_limit_ms == old(self).age_limit_ms,
            final(self).bot_zulip_user_id == old(self).bot_zulip_user_id,
            final(self).store.rooms() == old(self).store.rooms(),
            final(self).store.users() == old(self).store.users(),
            final(self).store.organizations() == old(self).store.organizations(),
            final(self).store.events() == old(self).store.events(),
            final(self).store.event_store.next_id() == old(self).store.event_store.next_id(),
            match r {
                Ok(_) => {
                    &&& !mapping_refused(old(self).store, mapping)
                    &&& mappings_changed(old(self).store, final(self).store, mapping, now)
                },
                Err(_) => {
                    &&& mapping_refused(old(self).store, mapping)
                    &&& final(self).store.messages() == old(self).store.messages()
                    &&& final(self).store.reactions() == old(self).store.reactions()
                },
            },
    {
        match mapping {
            MappingChange::Keep => Ok(()),
            MappingChange::StoreMessage(row) => {
                match self.store.message_store.create_at(row, now) {
                    Ok(_) => Ok(()),
                    Err(e) => Err(e),
                }
            },
            MappingChange::StoreReaction(row) => {
                match self.store.reaction_store.create_at(row, now) {
                    Ok(_) => Ok(()),
                    Err(e) => Err(e),
                }
            },
            MappingChange::DropMessage(id) => {
                let _ = self.store.message_store.delete_by_matrix_event(id.as_str());
                Ok(())
            },
            MappingChange::DropReaction(id) => {
                let _ = self.store.reaction_store.delete_by_matrix_reaction(id.as_str());
                Ok(())
            },
            MappingChange::DropEither(id) => {
                let _ = self.store.message_store.delete_by_matrix_event(id.as_str());
                let _ = self.store.reaction_store.delete_by_matrix_reaction(id.as_str());
                Ok(())
            },
        }
    }

    fn record(&mut self, event_id: &str, event_type: &str, source: &str, now: i64)
        requires
            old(self).wf(),
            !is_recorded(Some(event_id@), old(self).store.events()),
            old(self).store.event_store.next_id() != i64::MAX,
        ensures
            final(self).wf(),
            appended(old(self).store.events(), final(self).store.events()),
            is_event_row(
                final(self).store.events().last(),
                old(self).store.event_store.next_id(),
                event_id@,
                event_type@,
                source@,
                now,
            ),
            final(self).store.messages() == old(self).store.messages(),
            final(self).store.reactions() == old(self).store.reactions(),
            final(self).store.rooms() == old(self).store.rooms(),
            final(self).store.users() == old(self).store.users(),
            final(self).store.organizations() == old(self).store.organizations(),
            final(self).store.message_store.next_id() == old(self).store.message_store.next_id(),
            final(self).store.reaction_store.next_id() == old(self).store.reaction_store.next_id(),
            final(self).store.room_store.next_id() == old(self).store.room_store.next_id(),
            final(self).organization_id == old(self).organization_id,
            final(self).age_limit_ms == old(self).age_limit_ms,
            final(self).bot_zulip_user_id == old(self).bot_zulip_user_id,
    {
        let row = processed_event(event_id, event_type, source);
        proof {
            lemma_find_first(self.store.events(), event_has_event_id(event_id@));
        }
        let ghost before = self.store.events();
        match self.store.event_store.create_at(row, now) {
            Ok(_) => {
                assert(self.store.events().drop_last() =~= before);
            },
            Err(_) => {
                assert(false);
            },
        }
    }

    /// Completes `plan` for `event` once the call that the plan asks for
    /// has succeeded: stores or removes the mapping and records the event
    /// as processed at `now`. `sent_message_id` is the id that the
    /// team-chat side gave the message that was sent, where one was sent.
    /// A plan to do nothing completes with nothing done. Where the
    /// completion is refused, nothing is changed.
    pub fn complete_matrix_event(
        &mut self,
        event: &MatrixEvent,
        plan: &MatrixPlan,
        sent_message_id: Option<i64>,
        now: i64,
    ) -> (r: Result<(), DatabaseError>)
        requires
            old(self).wf(),
        ensures
            final(self).wf(),
            final(self).organization_id == old(self).organization_id,
            final(self).age_limit_ms == old(self).age_limit_ms,
            final(self).bot_zulip_user_id == old(self).bot_zulip_user_id,
            final(self).store.rooms() == old(self).store.rooms(),
            final(self).store.users() == old(self).store.users(),
            final(self).store.organizations() == old(self).store.organizations(),
            match r {
                Ok(_) => {
                    &&& !matrix_completion_refused(old(self).store, *event, plan@, sent_message_id)
                    &&& matrix_completed(
                        old(self).store,
                        final(self).store,
                        *event,
                        plan@,
                        sent_message_id,
                        old(self).bot_zulip_user_id,
                        now,
                    )
                },
                Err(_) => {
                    &&& matrix_completion_refused(old(self).store, *event, plan@, sent_message_id)
                    &&& final(self).store.messages() == old(self).store.messages()
                    &&& final(self).store.reactions() == old(self).store.reactions()
                    &&& final(self).store.events() == old(self).store.events()
                },
            },
    {
        let change = match matrix_store_change(
            event,
            plan,
            sent_message_id,
            self.bot_zulip_user_id,
            self.store.reaction_store.next_row_id(),
        ) {
            Ok(Some(change)) => change,
            Ok(None) => {
                return Ok(());
            },
            Err(e) => {
                return Err(e);
            },
        };
        let record = match change.record {
            Some(record) => record,
            None => {
                return Ok(());
            },
        };
        if self.store.event_store.exists_by_event_id(record.event_id.as_str()) {
            return Err(DatabaseError::Query(String::from_str("event already recorded")));
        }
        if self.store.event_store.next_row_id() == i64::MAX {
            return Err(DatabaseError::Query(String::from_str("row ids exhausted")));
        }
        let ghost before = self.store;
        let ghost mapping = change.mapping;
        match self.change_mappings(change.mapping, now) {
            Ok(_) => {},
            Err(e) => {
                return Err(e);
            },
        }
        proof {
            match mapping {
                MappingChange::StoreMessage(row) => {
                    assert(self.store.messages().drop_last() =~= before.messages());
                },
                MappingChange::StoreReaction(row) => {
                    assert(self.store.reactions().drop_last() =~= before.reactions());
                },
                _ => {},
            }
        }
        self.record(
            record.event_id.as_str(),
            record.event_type.as_str(),
            record.source.as_str(),
            now,
        );
        Ok(())
    }
}

/// An event of the federated side is recorded as processed when, and only
/// when, what it called for was carried out and completed: the completion
/// of a plan to do nothing records nothing, and every other completion
/// adds exactly the record of the event.
pub proof fn lemma_record_follows_completion(
    before: DatabaseManager,
    after: DatabaseManager,
    event: MatrixEvent,
    plan: MatrixPlanView,
    sent_message_id: Option<i64>,
    bot_zulip_user_id: i64,
    now: i64,
)
    requires
        matrix_completed(before, after, event, plan, sent_message_id, bot_zulip_user_id, now),
    ensures
        plan is Skip ==> after.events() == before.events(),
        !(plan is Skip) ==> after.events() == before.events().push(after.events().last())
            && after.events().last().event_id@ == event.event_id->0@
            && after.events().last().source@ == matrix_source(),
{
    if !(plan is Skip) {
        assert(after.events() =~= before.events().push(after.events().last()));
    }
}

/// No event older than the age limit calls for anything on the other
/// side, whatever the mapping store holds.
pub proof fn lemma_old_events_call_for_nothing(
    event: MatrixEvent,
    now: i64,
    age_limit_ms: i64,
    rooms: Seq<RoomMapping>,
    messages: Seq<MessageMapping>,
    reactions: Seq<ReactionMapping>,
    events: Seq<crate::db::models::ProcessedEvent>,
)
    requires
        age_limit_ms > 0,
        event.timestamp matches Some(ts) && ts < now - age_limit_ms,
    ensures
        matrix_plan_of(event, now, age_limit_ms, rooms, messages, reactions, events)
            == MatrixPlanView::Skip(Skipped::TooOld),
{
}

/// An event that is recorded as processed calls for nothing more.
pub proof fn lemma_recorded_events_call_for_nothing(
    event: MatrixEvent,
    now: i64,
    age_limit_ms: i64,
    rooms: Seq<RoomMapping>,
    messages: Seq<MessageMapping>,
    reactions: Seq<ReactionMapping>,
    events: Seq<crate::db::models::ProcessedEvent>,
)
    requires
        is_recorded(opt_view(event.event_id), events),
    ensures
        matrix_plan_of(event, now, age_limit_ms, rooms, messages, reactions, events) is Skip,
{
}

/// What an event of the team-chat side calls for on the federated side.
/// The sender is named by its id on the team-chat side; its ghost acts.
#[derive(Debug, Clone)]
pub enum ZulipPlan {
    /// Nothing.
    Skip(Skipped),
    /// Create a room for the stream `stream_id`, store its mapping, and
    /// plan the event again.
    CreateRoom { stream_id: i64, name: String, alias_localpart: String },
    /// Send a message with the text `content` into the room.
    SendMessage {
        room_id: String,
        sender_id: i64,
        sender_name: Option<String>,
        content: String,
        formatted: Option<String>,
    },
    /// Make `content` the text of the event `target_event_id`.
    EditMessage {
        room_id: String,
        sender_id: i64,
        target_event_id: String,
        content: String,
        formatted: Option<String>,
    },
    /// Redact the event `event_id`.
    RedactEvent { room_id: String, sender_id: i64, event_id: String },
    /// React with `key` to the event `target_event_id`.
    SendReaction { room_id: String, sender_id: i64, target_event_id: String, key: String },
}

/// The mathematical value of a [`ZulipPlan`].
pub enum ZulipPlanView {
    Skip(Skipped),
    CreateRoom { stream_id: i64, name: Seq<char>, alias_localpart: Seq<char> },
    SendMessage {
        room_id: Seq<char>,
        sender_id: i64,
        sender_name: Option<Seq<char>>,
        content: Seq<char>,
        formatted: Option<Seq<char>>,
    },
    EditMessage {
        room_id: Seq<char>,
        sender_id: i64,
        target_event_id: Seq<char>,
        content: Seq<char>,
        formatted: Option<Seq<char>>,
    },
    RedactEvent { room_id: Seq<char>, sender_id: i64, event_id: Seq<char> },
    SendReaction { room_id: Seq<char>, sender_id: i64, target_event_id: Seq<char>, key: Seq<char> },
}

impl View for ZulipPlan {
    type V = ZulipPlanView;

    open spec fn view(&self) -> ZulipPlanView {
        match self {
            ZulipPlan::Skip(why) => ZulipPlanView::Skip(*why),
            ZulipPlan::CreateRoom { stream_id, name, alias_localpart } => {
                ZulipPlanView::CreateRoom {
                    stream_id: *stream_id,
                    name: name@,
                    alias_localpart: alias_localpart@,
                }
            },
            ZulipPlan::SendMessage {
                room_id,
                sender_id,
                sender_name,
                content,
                formatted,
            } => ZulipPlanView::SendMessage {
                room_id: room_id@,
                sender_id: *sender_id,
                sender_name: opt_view(*sender_name),
                content: content@,
                formatted: opt_view(*formatted),
            },
            ZulipPlan::EditMessage {
                room_id,
                sender_id,
                target_event_id,
                content,
                formatted,
            } => ZulipPlanView::EditMessage {
                room_id: room_id@,
                sender_id: *sender_id,
                target_event_id: target_event_id@,
                content: content@,
                formatted: opt_view(*formatted),
            },
            ZulipPlan::RedactEvent { room_id, sender_id, event_id } => ZulipPlanView::RedactEvent {
                room_id: room_id@,
                sender_id: *sender_id,
                event_id: event_id@,
            },
            ZulipPlan::SendReaction {
                room_id,
                sender_id,
                target_event_id,
                key,
            } => ZulipPlanView::SendReaction {
                room_id: room_id@,
                sender_id: *sender_id,
                target_event_id: target_event_id@,
                key: key@,
            },
        }
    }
}

/// The id under which an event of the team-chat side is recorded: the
/// decimal notation of its own id, where it has one that is not negative.
pub fn zulip_event_record_id(id: Option<i64>) -> (r: Option<String>)
    ensures
        opt_view(r) == zulip_record_id(id),
{
    match id {
        Some(n) => {
            if n >= 0 {
                let mut text = String::new();
                push_decimal(&mut text, n);
                assert(text@ =~= decimal(n as int));
                Some(text)
            } else {
                None
            }
        },
        None => None,
    }
}

/// The lower-case hexadecimal digit for `d`, meant for `0 <= d < 16`.
pub open spec fn hex_digit(d: int) -> char {
    if d < 10 {
        (48 + d) as u8 as char
    } else {
        (87 + d) as u8 as char
    }
}

/// The lower-case hexadecimal notation of a natural number, without
/// leading zeros.
pub open spec fn hex_of(n: nat) -> Seq<char>
    decreases n,
{
    if n < 16 {
        seq![hex_digit(n as int)]
    } else {
        hex_of(n / 16).push(hex_digit((n % 16) as int))
    }
}

/// The code of an emoji on the team-chat side: the hexadecimal notations
/// of its code points, joined by hyphens.
pub open spec fn emoji_code_of(emoji: Seq<char>) -> Seq<char>
    decreases emoji.len(),
{
    if emoji.len() == 0 {
        Seq::empty()
    } else if emoji.len() == 1 {
        hex_of(emoji[0] as u32 as nat)
    } else {
        emoji_code_of(emoji.drop_last()) + "-"@ + hex_of(emoji.last() as u32 as nat)
    }
}

fn push_hex(out: &mut String, n: u32)
    ensures
        final(out)@ == old(out)@ + hex_of(n as nat),
    decreases n,
{
    if n >= 16 {
        push_hex(out, n / 16);
    }
    let d: u32 = n % 16;
    let c: char = if d < 10 {
        ((48 + d) as u8) as char
    } else {
        ((87 + d) as u8) as char
    };
    push_char(out, c);
    assert(out@ =~= old(out)@ + hex_of(n as nat));
}

/// The code of the emoji `emoji` on the team-chat side.
pub fn emoji_code(emoji: &str) -> (r: String)
    ensures
        r@ == emoji_code_of(emoji@),
{
    let chars = chars_of(emoji);
    let mut out = String::new();
    let mut i: usize = 0;
    proof {
        assert(emoji@.take(0) =~= Seq::<char>::empty());
    }
    while i < chars.len()
        invariant
            i <= chars@.len(),
            chars@ == emoji@,
            out@ == emoji_code_of(emoji@.take(i as int)),
        decreases chars@.len() - i,
    {
        proof {
            assert(emoji@.take(i + 1).drop_last() =~= emoji@.take(i as int));
            assert(emoji@.take(i + 1).last() == chars@[i as int]);
        }
        if i > 0 {
            out.append("-");
        }
        push_hex(&mut out, chars[i] as u32);
        proof {
            if i == 0 {
                assert(emoji@.take(1)[0] == chars@[0]);
                assert(out@ =~= hex_of(chars@[0] as u32 as nat));
            }
        }
        i += 1;
    }
    proof {
        assert(emoji@.take(chars@.len() as int) =~= emoji@);
    }
    out
}

/// What a character of a stream's name becomes in the alias of its room:
/// a lower-case letter and a digit stay, an upper-case letter becomes
/// lower-case, and anything else becomes an underscore.
pub open spec fn sanitized_char(c: char) -> char {
    if ('a' <= c <= 'z') || ('0' <= c <= '9') {
        c
    } else if 'A' <= c <= 'Z' {
        ((c as u8) + 32) as char
    } else {
        '_'
    }
}

/// The localpart of the alias of the room for the stream named `name`.
pub open spec fn alias_localpart_of(name: Seq<char>) -> Seq<char> {
    "zulip_"@ + Seq::new(name.len(), |i: int| sanitized_char(name[i]))
}

/// The localpart of the alias of the room for the stream named `name`.
pub fn alias_localpart(name: &str) -> (r: String)
    ensures
        r@ == alias_localpart_of(name@),
{
    let chars = chars_of(name);
    let mut out = String::from_str("zulip_");
    let mut i: usize = 0;
    while i < chars.len()
        invariant
            i <= chars@.len(),
            chars@ == name@,
            out@ == "zulip_"@ + Seq::new(i as nat, |k: int| sanitized_char(name@[k])),
        decreases chars@.len() - i,
    {
        let c = chars[i];
        let mapped: char = if (c >= 'a' && c <= 'z') || (c >= '0' && c <= '9') {
            c
        } else if c >= 'A' && c <= 'Z' {
            ((c as u8) + 32) as char
        } else {
            '_'
        };
        push_char(&mut out, mapped);
        i += 1;
        assert(out@ =~= "zulip_"@ + Seq::new(i as nat, |k: int| sanitized_char(name@[k])));
    }
    assert(out@ =~= alias_localpart_of(name@));
    out
}

/// The name of the room for a stream: the name that the message gives its
/// stream, or else `stream-` and the stream's id.
pub open spec fn stream_name_of(display_recipient: Option<JsonValue>, stream_id: i64) -> Seq<char> {
    match display_recipient {
        Some(JsonValue::Str(name)) => name,
        _ => "stream-"@ + decimal(stream_id as int),
    }
}

/// The id under which an event of the team-chat side is recorded.
pub open spec fn zulip_record_id(id: Option<i64>) -> Option<Seq<char>> {
    match tracked_id(id) {
        Some(n) => Some(decimal(n as int)),
        None => None,
    }
}

/// The rows of the reactions with `emoji` to the message
/// `zulip_message_id`.
pub open spec fn reaction_with(zulip_message_id: i64, emoji: Seq<char>) -> spec_fn(
    ReactionMapping,
) -> bool {
    |r: ReactionMapping| r.zulip_message_id == zulip_message_id && r.emoji@ == emoji
}

/// What a message calls for, given whether it has a counterpart already
/// and the mapping `room` of its stream.
///
/// A message that has a counterpart already, and one that the bridge's own
/// account sent, is the echo of what the bridge sent and calls for
/// nothing; so does a message outside a stream. A message to a stream
/// without a room calls for the room. Any other message is sent into the
/// room of its stream, by the ghost of its sender.
pub open spec fn zulip_message_decision(
    message: Option<ZulipMessage>,
    bot_zulip_user_id: i64,
    known: bool,
    room: Option<RoomMapping>,
) -> ZulipPlanView {
    match message {
        None => ZulipPlanView::Skip(Skipped::Malformed),
        Some(m) => if known || m.sender_id == bot_zulip_user_id {
            ZulipPlanView::Skip(Skipped::Echo)
        } else {
            match m.stream_id {
                None => ZulipPlanView::Skip(Skipped::NotBridged),
                Some(stream_id) => match room {
                    None => ZulipPlanView::CreateRoom {
                        stream_id,
                        name: stream_name_of(
                            match m.display_recipient {
                                Some(d) => Some(d@),
                                None => None,
                            },
                            stream_id,
                        ),
                        alias_localpart: alias_localpart_of(
                            stream_name_of(
                                match m.display_recipient {
                                    Some(d) => Some(d@),
                                    None => None,
                                },
                                stream_id,
                            ),
                        ),
                    },
                    Some(room) => ZulipPlanView::SendMessage {
                        room_id: room.matrix_room_id@,
                        sender_id: m.sender_id,
                        sender_name: Some(m.sender_full_name@),
                        content: m.content@,
                        formatted: opt_view(m.rendered_content),
                    },
                },
            }
        },
    }
}

/// Plans what a message calls for.
pub fn plan_zulip_message(
    message: &Option<ZulipMessage>,
    bot_zulip_user_id: i64,
    known: bool,
    room: Option<&RoomMapping>,
) -> (plan: ZulipPlan)
    ensures
        plan@ == zulip_message_decision(
            *message,
            bot_zulip_user_id,
            known,
            match room {
                Some(r) => Some(*r),
                None => None,
            },
        ),
{
    let m = match message {
        Some(m) => m,
        None => {
            return ZulipPlan::Skip(Skipped::Malformed);
        },
    };
    if known || m.sender_id == bot_zulip_user_id {
        return ZulipPlan::Skip(Skipped::Echo);
    }
    let stream_id = match m.stream_id {
        Some(s) => s,
        None => {
            return ZulipPlan::Skip(Skipped::NotBridged);
        },
    };
    match room {
        Some(room) => ZulipPlan::SendMessage {
            room_id: room.matrix_room_id.clone(),
            sender_id: m.sender_id,
            sender_name: Some(m.sender_full_name.clone()),
            content: m.content.clone(),
            formatted: crate::db::models::clone_opt(&m.rendered_content),
        },
        None => {
            let name: String = match &m.display_recipient {
                Some(Json::Str(name)) => name.clone(),
                _ => {
                    let mut n = String::from_str("stream-");
                    push_decimal(&mut n, stream_id);
                    n
                },
            };
            let alias = alias_localpart(name.as_str());
            ZulipPlan::CreateRoom { stream_id, name, alias_localpart: alias }
        },
    }
}

/// What a reaction calls for, given the mapping `known` of a reaction
/// with the same emoji to the same message and the mapping `target` of
/// that message.
///
/// An added reaction that has a counterpart already is the echo of what
/// the bridge sent; otherwise it is made, by the ghost of its user, to the
/// counterpart of its message. A removed reaction calls for the redaction
/// of its counterpart. A reaction to a message without a counterpart, and
/// a removal of a reaction without one, call for nothing.
pub open spec fn zulip_reaction_decision(
    op: Option<Seq<char>>,
    message_id: Option<i64>,
    emoji_name: Option<Seq<char>>,
    user_id: Option<i64>,
    known: Option<ReactionMapping>,
    target: Option<MessageMapping>,
) -> ZulipPlanView {
    if op is None || message_id is None || emoji_name is None || user_id is None {
        ZulipPlanView::Skip(Skipped::Malformed)
    } else if op->0 == "add"@ {
        if known is Some {
            ZulipPlanView::Skip(Skipped::Echo)
        } else {
            match target {
                Some(t) => ZulipPlanView::SendReaction {
                    room_id: t.matrix_room_id@,
                    sender_id: user_id->0,
                    target_event_id: t.matrix_event_id@,
                    key: emoji_name->0,
                },
                None => ZulipPlanView::Skip(Skipped::UnknownTarget),
            }
        }
    } else if op->0 == "remove"@ {
        match (known, target) {
            (Some(k), Some(t)) => ZulipPlanView::RedactEvent {
                room_id: t.matrix_room_id@,
                sender_id: user_id->0,
                event_id: k.matrix_reaction_event_id@,
            },
            _ => ZulipPlanView::Skip(Skipped::UnknownTarget),
        }
    } else {
        ZulipPlanView::Skip(Skipped::NotBridged)
    }
}

/// Plans what a reaction calls for.
pub fn plan_zulip_reaction(
    event: &ZulipEvent,
    known: Option<&ReactionMapping>,
    target: Option<&MessageMapping>,
) -> (plan: ZulipPlan)
    ensures
        plan@ == zulip_reaction_decision(
            opt_view(event.op),
            event.message_id,
            opt_view(event.emoji_name),
            event.user_id,
            match known {
                Some(k) => Some(*k),
                None => None,
            },
            match target {
                Some(t) => Some(*t),
                None => None,
            },
        ),
{
    let (op, emoji_name, user_id) = match (
        &event.op,
        event.message_id,
        &event.emoji_name,
        event.user_id,
    ) {
        (Some(op), Some(_), Some(emoji_name), Some(user_id)) => (op, emoji_name, user_id),
        _ => {
            return ZulipPlan::Skip(Skipped::Malformed);
        },
    };
    if str_eq(op.as_str(), "add") {
        if known.is_some() {
            return ZulipPlan::Skip(Skipped::Echo);
        }
        match target {
            Some(t) => ZulipPlan::SendReaction {
                room_id: t.matrix_room_id.clone(),
                sender_id: user_id,
                target_event_id: t.matrix_event_id.clone(),
                key: emoji_name.clone(),
            },
            None => ZulipPlan::Skip(Skipped::UnknownTarget),
        }
    } else if str_eq(op.as_str(), "remove") {
        match (known, target) {
            (Some(k), Some(t)) => ZulipPlan::RedactEvent {
                room_id: t.matrix_room_id.clone(),
                sender_id: user_id,
                event_id: k.matrix_reaction_event_id.clone(),
            },
            _ => ZulipPlan::Skip(Skipped::UnknownTarget),
        }
    } else {
        ZulipPlan::Skip(Skipped::NotBridged)
    }
}

/// The marker at the end of an edit that is delivered as a new message.
pub open spec fn edit_marker() -> Seq<char> {
    " (edited)"@
}

/// What the update of a message calls for, given the mapping `target` of
/// the message and the mapping `room` of the stream of the update.
///
/// The update of a message that the bridge's own account sent is the echo
/// of an edit that the bridge made. The update of a message with a
/// counterpart edits that counterpart, as the ghost of the message's
/// sender. The update of a message without one is delivered as a new
/// message that ends in an edit marker, into the room of its stream and
/// by the ghost of the user who made the update, where both are known.
pub open spec fn zulip_update_decision(
    message_id: Option<i64>,
    content: Option<Seq<char>>,
    rendered: Option<Seq<char>>,
    stream_id: Option<i64>,
    user_id: Option<i64>,
    bot_zulip_user_id: i64,
    target: Option<MessageMapping>,
    room: Option<RoomMapping>,
) -> ZulipPlanView {
    if message_id is None || content is None {
        ZulipPlanView::Skip(Skipped::Malformed)
    } else {
        match target {
            Some(t) => if t.zulip_sender_id == bot_zulip_user_id {
                ZulipPlanView::Skip(Skipped::Echo)
            } else {
                ZulipPlanView::EditMessage {
                    room_id: t.matrix_room_id@,
                    sender_id: t.zulip_sender_id,
                    target_event_id: t.matrix_event_id@,
                    content: content->0,
                    formatted: rendered,
                }
            },
            None => match (stream_id, user_id) {
                (Some(stream), Some(user)) => match room {
                    Some(room) => if user == bot_zulip_user_id {
                        ZulipPlanView::Skip(Skipped::Echo)
                    } else {
                        ZulipPlanView::SendMessage {
                            room_id: room.matrix_room_id@,
                            sender_id: user,
                            sender_name: None,
                            content: content->0 + edit_marker(),
                            formatted: None,
                        }
                    },
                    None => ZulipPlanView::Skip(Skipped::UnknownRoom),
                },
                _ => ZulipPlanView::Skip(Skipped::UnknownTarget),
            },
        }
    }
}

/// The text under `key` among the further fields of an event.
pub open spec fn extra_text(extra: Seq<(String, Json)>, key: Seq<char>) -> Option<Seq<char>> {
    match member_from(object_view(extra), key, 0) {
        Some(v) => v.as_str(),
        None => None,
    }
}

fn text_of_extra<'a>(extra: &'a Vec<(String, Json)>, key: &str) -> (r: Option<&'a str>)
    ensures
        opt_str_view(r) == extra_text(extra@, key@),
{
    match find_member(extra, key) {
        Some(v) => v.as_str(),
        None => None,
    }
}

fn owned(text: Option<&str>) -> (r: Option<String>)
    ensures
        opt_view(r) == opt_str_view(text),
{
    match text {
        Some(t) => Some(t.to_owned()),
        None => None,
    }
}

/// Plans what the update of a message calls for.
pub fn plan_zulip_update(
    event: &ZulipEvent,
    bot_zulip_user_id: i64,
    target: Option<&MessageMapping>,
    room: Option<&RoomMapping>,
) -> (plan: ZulipPlan)
    ensures
        plan@ == zulip_update_decision(
            event.message_id,
            extra_text(event.extra@, "content"@),
            extra_text(event.extra@, "rendered_content"@),
            event.stream_id,
            event.user_id,
            bot_zulip_user_id,
            match target {
                Some(t) => Some(*t),
                None => None,
            },
            match room {
                Some(r) => Some(*r),
                None => None,
            },
        ),
{
    let content = text_of_extra(&event.extra, "content");
    let rendered = text_of_extra(&event.extra, "rendered_content");
    let content = match (event.message_id, content) {
        (Some(_), Some(c)) => c,
        _ => {
            return ZulipPlan::Skip(Skipped::Malformed);
        },
    };
    match target {
        Some(t) => {
            if t.zulip_sender_id == bot_zulip_user_id {
                ZulipPlan::Skip(Skipped::Echo)
            } else {
                ZulipPlan::EditMessage {
                    room_id: t.matrix_room_id.clone(),
                    sender_id: t.zulip_sender_id,
                    target_event_id: t.matrix_event_id.clone(),
                    content: content.to_owned(),
                    formatted: owned(rendered),
                }
            }
        },
        None => {
            let user = match (event.stream_id, event.user_id) {
                (Some(_), Some(u)) => u,
                _ => {
                    return ZulipPlan::Skip(Skipped::UnknownTarget);
                },
            };
            match room {
                Some(room) => {
                    if user == bot_zulip_user_id {
                        ZulipPlan::Skip(Skipped::Echo)
                    } else {
                        let mut marked = content.to_owned();
                        marked.append(" (edited)");
                        ZulipPlan::SendMessage {
                            room_id: room.matrix_room_id.clone(),
                            sender_id: user,
                            sender_name: None,
                            content: marked,
                            formatted: None,
                        }
                    }
                },
                None => ZulipPlan::Skip(Skipped::UnknownRoom),
            }
        },
    }
}

/// What the deletion of a message calls for, given the mapping `target` of
/// the message: the redaction of its counterpart, as the ghost of the
/// user who had sent the message.
pub open spec fn zulip_delete_decision(
    message_id: Option<i64>,
    target: Option<MessageMapping>,
) -> ZulipPlanView {
    match message_id {
        None => ZulipPlanView::Skip(Skipped::Malformed),
        Some(id) => match target {
            Some(t) => ZulipPlanView::RedactEvent {
                room_id: t.matrix_room_id@,
                sender_id: t.zulip_sender_id,
                event_id: t.matrix_event_id@,
            },
            None => ZulipPlanView::Skip(Skipped::UnknownTarget),
        },
    }
}

/// Plans what the deletion of a message calls for.
pub fn plan_zulip_delete(event: &ZulipEvent, target: Option<&MessageMapping>) -> (plan: ZulipPlan)
    ensures
        plan@ == zulip_delete_decision(
            event.message_id,
            match target {
                Some(t) => Some(*t),
                None => None,
            },
        ),
{
    match event.message_id {
        None => ZulipPlan::Skip(Skipped::Malformed),
        Some(_) => match target {
            Some(t) => ZulipPlan::RedactEvent {
                room_id: t.matrix_room_id.clone(),
                sender_id: t.zulip_sender_id,
                event_id: t.matrix_event_id.clone(),
            },
            None => ZulipPlan::Skip(Skipped::UnknownTarget),
        },
    }
}

/// The mapping of the message `message_id`.
pub open spec fn message_of(message_id: Option<i64>, messages: Seq<MessageMapping>) -> Option<
    MessageMapping,
> {
    match message_id {
        Some(id) => find_first(messages, message_has_zulip_message(id)),
        None => None,
    }
}

/// The mapping of the room of the stream `stream_id` of the organization
/// `organization_id`.
pub open spec fn room_of(
    stream_id: Option<i64>,
    organization_id: Seq<char>,
    rooms: Seq<RoomMapping>,
) -> Option<RoomMapping> {
    match stream_id {
        Some(id) => find_first(rooms, room_has_zulip_stream(organization_id, id)),
        None => None,
    }
}

/// The mapping of a reaction with `emoji` to the message `message_id`.
pub open spec fn reaction_of(
    message_id: Option<i64>,
    emoji: Option<Seq<char>>,
    reactions: Seq<ReactionMapping>,
) -> Option<ReactionMapping> {
    match (message_id, emoji) {
        (Some(id), Some(e)) => find_first(reactions, reaction_with(id, e)),
        _ => None,
    }
}

/// What an event of the team-chat side calls for, with the mapping store
/// holding the given rows. An event that is recorded as processed calls
/// for nothing; next, one of a type other than message, reaction, update
/// and deletion calls for nothing. What remains is planned by its kind,
/// from what the store holds for it.
pub open spec fn zulip_plan_of(
    event: ZulipEvent,
    bot_zulip_user_id: i64,
    organization_id: Seq<char>,
    rooms: Seq<RoomMapping>,
    messages: Seq<MessageMapping>,
    reactions: Seq<ReactionMapping>,
    events: Seq<crate::db::models::ProcessedEvent>,
) -> ZulipPlanView {
    if is_recorded(zulip_record_id(event.id), events) {
        ZulipPlanView::Skip(Skipped::AlreadyProcessed)
    } else {
        match zulip_kind_of(event.event_type@) {
            Some(ZulipEventKind::Message) => zulip_message_decision(
                event.message,
                bot_zulip_user_id,
                match event.message {
                    Some(m) => message_of(Some(m.id), messages) is Some,
                    None => false,
                },
                match event.message {
                    Some(m) => room_of(m.stream_id, organization_id, rooms),
                    None => None,
                },
            ),
            Some(ZulipEventKind::Reaction) => zulip_reaction_decision(
                opt_view(event.op),
                event.message_id,
                opt_view(event.emoji_name),
                event.user_id,
                reaction_of(event.message_id, opt_view(event.emoji_name), reactions),
                message_of(event.message_id, messages),
            ),
            Some(ZulipEventKind::UpdateMessage) => zulip_update_decision(
                event.message_id,
                extra_text(event.extra@, "content"@),
                extra_text(event.extra@, "rendered_content"@),
                event.stream_id,
                event.user_id,
                bot_zulip_user_id,
                message_of(event.message_id, messages),
                room_of(event.stream_id, organization_id, rooms),
            ),
            Some(ZulipEventKind::DeleteMessage) => zulip_delete_decision(
                event.message_id,
                message_of(event.message_id, messages),
            ),
            _ => ZulipPlanView::Skip(Skipped::NotBridged),
        }
    }
}

impl BridgeCore {
    fn find_reaction(&self, zulip_message_id: i64, emoji: &str) -> (r: Option<ReactionMapping>)
        ensures
            r == find_first(self.store.reactions(), reaction_with(zulip_message_id, emoji@)),
    {
        let rows = self.store.reaction_store.get_by_zulip_message(zulip_message_id);
        let ghost all = self.store.reactions();
        let ghost of_message = all.filter(reaction_on_message(zulip_message_id));
        let ghost p = reaction_with(zulip_message_id, emoji@);
        let mut i: usize = 0;
        while i < rows.len()
            invariant
                i <= rows@.len(),
                rows@ == of_message,
                all == self.store.reactions(),
                of_message == all.filter(reaction_on_message(zulip_message_id)),
                p == reaction_with(zulip_message_id, emoji@),
                forall|k: int| 0 <= k < i ==> !p(#[trigger] rows@[k]),
            decreases rows@.len() - i,
        {
            if str_eq(rows[i].emoji.as_str(), emoji) {
                proof {
                    lemma_first_in_filter(all, reaction_on_message(zulip_message_id), p, i as int);
                }
                return Some(rows[i].clone());
            }
            i += 1;
        }
        proof {
            lemma_none_in_filter(all, reaction_on_message(zulip_message_id), p);
        }
        None
    }

    fn find_message(&self, message_id: Option<i64>) -> (r: Option<MessageMapping>)
        ensures
            r == message_of(message_id, self.store.messages()),
    {
        match message_id {
            Some(id) => self.store.message_store.get_by_zulip_message(id),
            None => None,
        }
    }

    fn find_room(&self, stream_id: Option<i64>) -> (r: Option<RoomMapping>)
        ensures
            r == room_of(stream_id, self.organization_id@, self.store.rooms()),
    {
        match stream_id {
            Some(id) => {
                self.store.room_store.get_by_zulip_stream(self.organization_id.as_str(), id)
            },
            None => None,
        }
    }

    fn zulip_recorded(&self, id: Option<i64>) -> (r: bool)
        ensures
            r == is_recorded(zulip_record_id(id), self.store.events()),
    {
        match id {
            Some(n) => {
                if n >= 0 {
                    let mut text = String::new();
                    push_decimal(&mut text, n);
                    assert(text@ =~= decimal(n as int));
                    self.store.event_store.exists_by_event_id(text.as_str())
                } else {
                    false
                }
            },
            None => false,
        }
    }

    /// Plans what an event of the team-chat side calls for. Nothing is
    /// written.
    pub fn plan_zulip_event(&self, event: &ZulipEvent) -> (plan: ZulipPlan)
        ensures
            plan@ == zulip_plan_of(
                *event,
                self.bot_zulip_user_id,
                self.organization_id@,
                self.store.rooms(),
                self.store.messages(),
                self.store.reactions(),
                self.store.events(),
            ),
    {
        if self.zulip_recorded(event.id) {
            return ZulipPlan::Skip(Skipped::AlreadyProcessed);
        }
        match zulip_event_kind(event.event_type.as_str()) {
            Some(ZulipEventKind::Message) => {
                let (known, room) = match &event.message {
                    Some(m) => (
                        self.store.message_store.exists_by_zulip_message(m.id),
                        self.find_room(m.stream_id),
                    ),
                    None => (false, None),
                };
                plan_zulip_message(&event.message, self.bot_zulip_user_id, known, room.as_ref())
            },
            Some(ZulipEventKind::Reaction) => {
                let known = match (event.message_id, &event.emoji_name) {
                    (Some(id), Some(emoji)) => self.find_reaction(id, emoji.as_str()),
                    _ => None,
                };
                let target = self.find_message(event.message_id);
                plan_zulip_reaction(event, known.as_ref(), target.as_ref())
            },
            Some(ZulipEventKind::UpdateMessage) => {
                let target = self.find_message(event.message_id);
                let room = self.find_room(event.stream_id);
                plan_zulip_update(event, self.bot_zulip_user_id, target.as_ref(), room.as_ref())
            },
            Some(ZulipEventKind::DeleteMessage) => {
                let target = self.find_message(event.message_id);
                plan_zulip_delete(event, target.as_ref())
            },
            _ => ZulipPlan::Skip(Skipped::NotBridged),
        }
    }
}

/// The message of the team-chat side that an event is about.
pub open spec fn zulip_message_id_of(event: ZulipEvent) -> Option<i64> {
    match event.message {
        Some(m) => Some(m.id),
        None => event.message_id,
    }
}

/// Whether a plan asks for a call whose success is completed: every plan
/// but the one to do nothing and the one to create a room.
pub open spec fn zulip_plan_completes(plan: ZulipPlanView) -> bool {
    !(plan is Skip) && !(plan is CreateRoom)
}

/// Whether the completion of `plan` lacks what it needs of `event` and of
/// the answer: the id of the event that was sent, or the id of the message
/// that the event speaks of.
pub open spec fn zulip_change_lacks(
    event: ZulipEvent,
    plan: ZulipPlanView,
    sent_event_id: Option<Seq<char>>,
) -> bool {
    match plan {
        ZulipPlanView::SendMessage { room_id, sender_id, sender_name, content, formatted } => {
            sent_event_id is None || zulip_message_id_of(event) is None
        },
        ZulipPlanView::SendReaction { room_id, sender_id, target_event_id, key } => {
            sent_event_id is None || event.message_id is None
        },
        _ => false,
    }
}

/// Whether `change` is what the mapping store is to do once `plan` was
/// carried out for `event` and answered with `sent_event_id`: the mapping
/// that the plan makes or unmakes, and the record of the event where it
/// has an id to be recorded under. A reaction is stored under
/// `reaction_id`.
pub open spec fn is_zulip_change(
    change: StoreChange,
    event: ZulipEvent,
    plan: ZulipPlanView,
    sent_event_id: Option<Seq<char>>,
    reaction_id: i64,
) -> bool {
    &&& match zulip_record_id(event.id) {
        Some(id) => match change.record {
            Some(row) => is_record(row, id, event.event_type@, zulip_source()),
            None => false,
        },
        None => change.record is None,
    }
    &&& match plan {
        ZulipPlanView::SendMessage { room_id, sender_id, sender_name, content, formatted } => {
            match change.mapping {
                MappingChange::StoreMessage(row) => is_message_mapping(
                    row,
                    sent_event_id->0,
                    room_id,
                    zulip_message_id_of(event)->0,
                    sender_id,
                ),
                _ => false,
            }
        },
        ZulipPlanView::SendReaction { room_id, sender_id, target_event_id, key } => {
            match change.mapping {
                MappingChange::StoreReaction(row) => is_reaction_mapping(
                    row,
                    target_event_id,
                    event.message_id->0,
                    reaction_id,
                    key,
                    sent_event_id->0,
                ),
                _ => false,
            }
        },
        ZulipPlanView::RedactEvent { room_id, sender_id, event_id } => match change.mapping {
            MappingChange::DropEither(id) => id@ == event_id,
            _ => false,
        },
        _ => change.mapping is Keep,
    }
}

/// What the mapping store is to do once `plan` was carried out for `event`
/// and answered with `sent_event_id`, the id that the federated side gave
/// the event that was sent, where one was sent. A plan to do nothing and a
/// plan to create a room ask nothing of the store. Fails where what the
/// plan needs is lacking. `reaction_id` is the id under which a reaction
/// is to be stored: one that no stored reaction has.
pub fn zulip_store_change(
    event: &ZulipEvent,
    plan: &ZulipPlan,
    sent_event_id: Option<&str>,
    reaction_id: i64,
) -> (r: Result<Option<StoreChange>, DatabaseError>)
    ensures
        match r {
            Ok(None) => !zulip_plan_completes(plan@),
            Ok(Some(change)) => {
                &&& zulip_plan_completes(plan@)
                &&& !zulip_change_lacks(*event, plan@, opt_str_view(sent_event_id))
                &&& is_zulip_change(
                    change,
                    *event,
                    plan@,
                    opt_str_view(sent_event_id),
                    reaction_id,
                )
            },
            Err(e) => {
                &&& e is InvalidData
                &&& zulip_plan_completes(plan@)
                &&& zulip_change_lacks(*event, plan@, opt_str_view(sent_event_id))
            },
        },
{
    let mapping = match plan {
        ZulipPlan::Skip(_) => {
            return Ok(None);
        },
        ZulipPlan::CreateRoom { stream_id: _, name: _, alias_localpart: _ } => {
            return Ok(None);
        },
        ZulipPlan::SendMessage { room_id, sender_id, sender_name: _, content: _, formatted: _ } => {
            let matrix_event_id = match sent_event_id {
                Some(e) => e,
                None => {
                    return Err(DatabaseError::InvalidData(String::from_str("no event id")));
                },
            };
            let zulip_message_id = match &event.message {
                Some(m) => m.id,
                None => match event.message_id {
                    Some(id) => id,
                    None => {
                        return Err(DatabaseError::InvalidData(String::from_str("no message id")));
                    },
                },
            };
            MappingChange::StoreMessage(
                message_mapping(matrix_event_id, room_id.as_str(), zulip_message_id, *sender_id),
            )
        },
        ZulipPlan::SendReaction { room_id: _, sender_id: _, target_event_id, key } => {
            let matrix_event_id = match sent_event_id {
                Some(e) => e,
                None => {
                    return Err(DatabaseError::InvalidData(String::from_str("no event id")));
                },
            };
            let zulip_message_id = match event.message_id {
                Some(id) => id,
                None => {
                    return Err(DatabaseError::InvalidData(String::from_str("no message id")));
                },
            };
            MappingChange::StoreReaction(
                reaction_mapping(
                    target_event_id.as_str(),
                    zulip_message_id,
                    reaction_id,
                    key.as_str(),
                    matrix_event_id,
                ),
            )
        },
        ZulipPlan::RedactEvent { room_id: _, sender_id: _, event_id } => {
            MappingChange::DropEither(event_id.clone())
        },
        _ => MappingChange::Keep,
    };
    let record = match zulip_event_record_id(event.id) {
        Some(id) => Some(processed_event(id.as_str(), event.event_type.as_str(), "zulip")),
        None => None,
    };
    Ok(Some(StoreChange { mapping, record }))
}

/// Whether the completion of `plan` for `event` is refused: the event is
/// recorded already, no row id is left, what the plan needs is missing,
/// or the mapping to store would break a uniqueness constraint.
pub open spec fn zulip_completion_refused(
    store: DatabaseManager,
    event: ZulipEvent,
    plan: ZulipPlanView,
    sent_event_id: Option<Seq<char>>,
) -> bool {
    zulip_plan_completes(plan) && (is_recorded(zulip_record_id(event.id), store.events())
        || store.event_store.next_id() == i64::MAX || match plan {
        ZulipPlanView::SendMessage { room_id, sender_id, sender_name, content, formatted } => {
            sent_event_id is None || zulip_message_id_of(event) is None
                || store.message_store.next_id() == i64::MAX || exists|i: int|
                0 <= i < store.messages().len() && ((
                #[trigger] store.messages()[i]).matrix_event_id@ == sent_event_id->0
                    || store.messages()[i].zulip_message_id == zulip_message_id_of(event)->0)
        },
        ZulipPlanView::SendReaction { room_id, sender_id, target_event_id, key } => {
            sent_event_id is None || event.message_id is None
                || store.reaction_store.next_id() == i64::MAX || exists|i: int|
                0 <= i < store.reactions().len() && ((
                #[trigger] store.reactions()[i]).matrix_reaction_event_id@ == sent_event_id->0
                    || store.reactions()[i].zulip_reaction_id == store.reaction_store.next_id())
        },
        _ => false,
    })
}

/// Whether `after` is the store `before` once `plan` was carried out for
/// `event` at `now` and answered with `sent_event_id`: the mapping that
/// the plan makes or unmakes, and the record of the event where it has an
/// id to be recorded under.
pub open spec fn zulip_completed(
    before: DatabaseManager,
    after: DatabaseManager,
    event: ZulipEvent,
    plan: ZulipPlanView,
    sent_event_id: Option<Seq<char>>,
    now: i64,
) -> bool {
    &&& match plan {
        ZulipPlanView::SendMessage { room_id, sender_id, sender_name, content, formatted } => {
            &&& appended(before.messages(), after.messages())
            &&& is_message_row(
                after.messages().last(),
                before.message_store.next_id(),
                sent_event_id->0,
                room_id,
                zulip_message_id_of(event)->0,
                sender_id,
                now,
            )
            &&& after.reactions() == before.reactions()
        },
        ZulipPlanView::SendReaction { room_id, sender_id, target_event_id, key } => {
            &&& appended(before.reactions(), after.reactions())
            &&& is_reaction_row(
                after.reactions().last(),
                before.reaction_store.next_id(),
                target_event_id,
                event.message_id->0,
                key,
                sent_event_id->0,
                now,
            )
            &&& after.messages() == before.messages()
        },
        ZulipPlanView::RedactEvent { room_id, sender_id, event_id } => {
            &&& after.messages() == without(before.messages(), message_has_matrix_event(event_id))
            &&& after.reactions() == without(
                before.reactions(),
                reaction_has_matrix_reaction(event_id),
            )
        },
        _ => after.messages() == before.messages() && after.reactions() == before.reactions(),
    }
    &&& if zulip_plan_completes(plan) && zulip_record_id(event.id) is Some {
        &&& appended(before.events(), after.events())
        &&& is_event_row(
            after.events().last(),
            before.event_store.next_id(),
            zulip_record_id(event.id)->0,
            event.event_type@,
            zulip_source(),
            now,
        )
    } else {
        after.events() == before.events()
    }
}

/// What is sent to the federated side.
#[derive(Debug)]
pub enum Outbound {
    /// An event into a room.
    Event(OutboundEvent),
    /// The redaction of an event.
    Redaction(Redaction),
}

impl ZulipPlan {
    /// The user of the team-chat side whose ghost carries the plan out, if
    /// the plan has one.
    pub fn sender_id(&self) -> (r: Option<i64>)
        ensures
            r == match self@ {
                ZulipPlanView::SendMessage {
                    room_id,
                    sender_id,
                    sender_name,
                    content,
                    formatted,
                } => Some(sender_id),
                ZulipPlanView::EditMessage {
                    room_id,
                    sender_id,
                    target_event_id,
                    content,
                    formatted,
                } => Some(sender_id),
                ZulipPlanView::RedactEvent { room_id, sender_id, event_id } => Some(sender_id),
                ZulipPlanView::SendReaction { room_id, sender_id, target_event_id, key } => Some(
                    sender_id,
                ),
                _ => None,
            },
    {
        match self {
            ZulipPlan::SendMessage {
                room_id: _,
                sender_id,
                sender_name: _,
                content: _,
                formatted: _,
            } => Some(*sender_id),
            ZulipPlan::EditMessage {
                room_id: _,
                sender_id,
                target_event_id: _,
                content: _,
                formatted: _,
            } => Some(*sender_id),
            ZulipPlan::RedactEvent { room_id: _, sender_id, event_id: _ } => Some(*sender_id),
            ZulipPlan::SendReaction { room_id: _, sender_id, target_event_id: _, key: _ } => Some(
                *sender_id,
            ),
            _ => None,
        }
    }

    /// What the ghost `ghost` sends to carry the plan out: the message,
    /// the edit, the reaction or the redaction that the plan names, in the
    /// room that it names and as that ghost. A plan to do nothing and a
    /// plan to create a room send nothing.
    pub fn outbound(&self, appservice: &MatrixAppservice, ghost: &GhostUserInfo) -> (r: Option<
        Outbound,
    >)
        ensures
            match self@ {
                ZulipPlanView::SendMessage {
                    room_id,
                    sender_id,
                    sender_name,
                    content,
                    formatted,
                } => {
                    r matches Some(Outbound::Event(e)) && e.is(
                        room_id,
                        ghost.matrix_user_id@,
                        "m.room.message"@,
                        message_content_of(content, formatted, None, None),
                    )
                },
                ZulipPlanView::EditMessage {
                    room_id,
                    sender_id,
                    target_event_id,
                    content,
                    formatted,
                } => {
                    r matches Some(Outbound::Event(e)) && e.is(
                        room_id,
                        ghost.matrix_user_id@,
                        "m.room.message"@,
                        message_content_of(content, formatted, None, Some(target_event_id)),
                    )
                },
                ZulipPlanView::SendReaction { room_id, sender_id, target_event_id, key } => {
                    r matches Some(Outbound::Event(e)) && e.is(
                        room_id,
                        ghost.matrix_user_id@,
                        "m.reaction"@,
                        reaction_content_of(target_event_id, key),
                    )
                },
                ZulipPlanView::RedactEvent { room_id, sender_id, event_id } => {
                    &&& r matches Some(Outbound::Redaction(d))
                    &&& d.room_id@ == room_id
                    &&& d.sender@ == ghost.matrix_user_id@
                    &&& d.event_id@ == event_id
                    &&& d.reason is None
                },
                _ => r is None,
            },
    {
        let sender = ghost.matrix_user_id.as_str();
        match self {
            ZulipPlan::SendMessage {
                room_id,
                sender_id: _,
                sender_name: _,
                content,
                formatted,
            } => {
                let html: Option<&str> = match formatted {
                    Some(f) => Some(f.as_str()),
                    None => None,
                };
                Some(
                    Outbound::Event(
                        appservice.send_message(room_id.as_str(), sender, content.as_str(), html),
                    ),
                )
            },
            ZulipPlan::EditMessage {
                room_id,
                sender_id: _,
                target_event_id,
                content,
                formatted,
            } => {
                let html: Option<&str> = match formatted {
                    Some(f) => Some(f.as_str()),
                    None => None,
                };
                Some(
                    Outbound::Event(
                        appservice.send_message_edit(
                            room_id.as_str(),
                            sender,
                            content.as_str(),
                            html,
                            target_event_id.as_str(),
                        ),
                    ),
                )
            },
            ZulipPlan::SendReaction { room_id, sender_id: _, target_event_id, key } => Some(
                Outbound::Event(
                    appservice.send_reaction(
                        room_id.as_str(),
                        sender,
                        target_event_id.as_str(),
                        key.as_str(),
                    ),
                ),
            ),
            ZulipPlan::RedactEvent { room_id, sender_id: _, event_id } => Some(
                Outbound::Redaction(
                    appservice.redact_event(room_id.as_str(), sender, event_id.as_str(), None),
                ),
            ),
            _ => None,
        }
    }
}

impl BridgeCore {
    /// Stores the mapping of the room `matrix_room_id` that was created for
    /// the stream `stream_id`, named `stream_name`, at `now`. Fails, and
    /// changes nothing, where the room or the stream is mapped already.
    pub fn complete_room(
        &mut self,
        stream_id: i64,
        stream_name: &str,
        matrix_room_id: &str,
        now: i64,
    ) -> (r: Result<RoomMapping, DatabaseError>)
        requires
            old(self).wf(),
        ensures
            final(self).wf(),
            final(self).organization_id == old(self).organization_id,
            final(self).age_limit_ms == old(self).age_limit_ms,
            final(self).bot_zulip_user_id == old(self).bot_zulip_user_id,
            final(self).store.messages() == old(self).store.messages(),
            final(self).store.reactions() == old(self).store.reactions(),
            final(self).store.events() == old(self).store.events(),
            final(self).store.users() == old(self).store.users(),
            final(self).store.organizations() == old(self).store.organizations(),
            match r {
                Ok(row) => {
                    &&& appended(old(self).store.rooms(), final(self).store.rooms())
                    &&& final(self).store.rooms().last() == row
                    &&& row.id == old(self).store.room_store.next_id()
                    &&& row.matrix_room_id@ == matrix_room_id@
                    &&& row.zulip_stream_id == stream_id
                    &&& row.zulip_stream_name@ == stream_name@
                    &&& row.zulip_topic is None
                    &&& row.organization_id@ == old(self).organization_id@
                    &&& row.room_type@ == "stream"@
                    &&& row.created_at == now
                    &&& row.updated_at == now
                },
                Err(e) => {
                    &&& e is Query
                    &&& final(self).store.rooms() == old(self).store.rooms()
                    &&& old(self).store.room_store.next_id() == i64::MAX || exists|i: int|
                        0 <= i < old(self).store.rooms().len() && ((#[trigger] old(
                            self,
                        ).store.rooms()[i]).matrix_room_id@ == matrix_room_id@ || (old(
                            self,
                        ).store.rooms()[i].organization_id@ == old(self).organization_id@ && old(
                            self,
                        ).store.rooms()[i].zulip_stream_id == stream_id))
                },
            },
    {
        let mapping = stream_room_mapping(
            self.organization_id.as_str(),
            stream_id,
            stream_name,
            matrix_room_id,
        );
        let ghost before = self.store.rooms();
        match self.store.room_store.create_at(mapping, now) {
            Ok(row) => {
                assert(self.store.rooms().drop_last() =~= before);
                Ok(row)
            },
            Err(e) => Err(e),
        }
    }

    /// Completes `plan` for `event` once the call that the plan asks for
    /// has succeeded: stores or removes the mapping and records the event
    /// as processed at `now`. `sent_event_id` is the id that the federated
    /// side gave the event that was sent, where one was sent. A plan to do
    /// nothing, and a plan to create a room, complete with nothing done.
    /// Where the completion is refused, nothing is changed.
    pub fn complete_zulip_event(
        &mut self,
        event: &ZulipEvent,
        plan: &ZulipPlan,
        sent_event_id: Option<&str>,
        now: i64,
    ) -> (r: Result<(), DatabaseError>)
        requires
            old(self).wf(),
        ensures
            final(self).wf(),
            final(self).organization_id == old(self).organization_id,
            final(self).age_limit_ms == old(self).age_limit_ms,
            final(self).bot_zulip_user_id == old(self).bot_zulip_user_id,
            final(self).store.rooms() == old(self).store.rooms(),
            final(self).store.users() == old(self).store.users(),
            final(self).store.organizations() == old(self).store.organizations(),
            match r {
                Ok(_) => {
                    &&& !zulip_completion_refused(
                        old(self).store,
                        *event,
                        plan@,
                        opt_str_view(sent_event_id),
                    )
                    &&& zulip_completed(
                        old(self).store,
                        final(self).store,
                        *event,
                        plan@,
                        opt_str_view(sent_event_id),
                        now,
                    )
                },
                Err(_) => {
                    &&& zulip_completion_refused(
                        old(self).store,
                        *event,
                        plan@,
                        opt_str_view(sent_event_id),
                    )
                    &&& final(self).store.messages() == old(self).store.messages()
                    &&& final(self).store.reactions() == old(self).store.reactions()
                    &&& final(self).store.events() == old(self).store.events()
                },
            },
    {
        let change = match zulip_store_change(
            event,
            plan,
            sent_event_id,
            self.store.reaction_store.next_row_id(),
        ) {
            Ok(Some(change)) => change,
            Ok(None) => {
                return Ok(());
            },
            Err(e) => {
                return Err(e);
            },
        };
        if let Some(record) = &change.record {
            if self.store.event_store.exists_by_event_id(record.event_id.as_str()) {
                return Err(DatabaseError::Query(String::from_str("event already recorded")));
            }
        }
        if self.store.event_store.next_row_id() == i64::MAX {
            return Err(DatabaseError::Query(String::from_str("row ids exhausted")));
        }
        let ghost before = self.store;
        let ghost mapping = change.mapping;
        match self.change_mappings(change.mapping, now) {
            Ok(_) => {},
            Err(e) => {
                return Err(e);
            },
        }
        proof {
            match mapping {
                MappingChange::StoreMessage(row) => {
                    assert(self.store.messages().drop_last() =~= before.messages());
                },
                MappingChange::StoreReaction(row) => {
                    assert(self.store.reactions().drop_last() =~= before.reactions());
                },
                _ => {},
            }
        }
        if let Some(record) = change.record {
            self.record(
                record.event_id.as_str(),
                record.event_type.as_str(),
                record.source.as_str(),
                now,
            );
        }
        Ok(())
    }
}

/// A message that was sent for an event of the federated side does not
/// come back: once the completion has stored its mapping, the event by
/// which the team-chat side reports that message calls for nothing.
pub proof fn lemma_echo_of_sent_message_is_suppressed(
    before: DatabaseManager,
    after: DatabaseManager,
    event: MatrixEvent,
    plan: MatrixPlanView,
    sent_message_id: i64,
    bot_zulip_user_id: i64,
    now: i64,
    echo: ZulipEvent,
    organization_id: Seq<char>,
)
    requires
        plan is SendStream,
        matrix_completed(before, after, event, plan, Some(sent_message_id), bot_zulip_user_id, now),
        echo.event_type@ == "message"@,
        echo.message matches Some(m) && m.id == sent_message_id,
    ensures
        zulip_plan_of(
            echo,
            bot_zulip_user_id,
            organization_id,
            after.rooms(),
            after.messages(),
            after.reactions(),
            after.events(),
        ) is Skip,
{
    let rows = after.messages();
    let p = message_has_zulip_message(sent_message_id);
    let last = rows.len() - 1;
    assert(p(rows[last]));
    lemma_find_first(rows, p);
}

/// A reaction that was made for an event of the federated side does not
/// come back: once the completion has stored its mapping, the event by
/// which the team-chat side reports that the emoji was added to that
/// message calls for nothing.
pub proof fn lemma_echo_of_sent_reaction_is_suppressed(
    before: DatabaseManager,
    after: DatabaseManager,
    event: MatrixEvent,
    message_id: i64,
    emoji: Seq<char>,
    bot_zulip_user_id: i64,
    now: i64,
    echo: ZulipEvent,
    organization_id: Seq<char>,
)
    requires
        matrix_completed(
            before,
            after,
            event,
            MatrixPlanView::AddReaction { message_id, emoji },
            None,
            bot_zulip_user_id,
            now,
        ),
        echo.event_type@ == "reaction"@,
        echo.op matches Some(op) && op@ == "add"@,
        echo.message_id == Some(message_id),
        echo.emoji_name matches Some(name) && name@ == emoji,
    ensures
        zulip_plan_of(
            echo,
            bot_zulip_user_id,
            organization_id,
            after.rooms(),
            after.messages(),
            after.reactions(),
            after.events(),
        ) is Skip,
{
    let rows = after.reactions();
    let p = reaction_with(message_id, emoji);
    let last = rows.len() - 1;
    assert(p(rows[last]));
    lemma_find_first(rows, p);
    reveal_strlit("reaction");
    reveal_strlit("message");
    assert("reaction"@.len() != "message"@.len());
}

/// Where the row at position `i` of the rows that satisfy `outer` is the
/// first of them that satisfies `inner`, it is the first of all rows that
/// satisfies both.
pub proof fn lemma_first_in_filter<R>(
    rows: Seq<R>,
    outer: spec_fn(R) -> bool,
    inner: spec_fn(R) -> bool,
    i: int,
)
    requires
        0 <= i < rows.filter(outer).len(),
        inner(rows.filter(outer)[i]),
        forall|k: int| 0 <= k < i ==> !inner(#[trigger] rows.filter(outer)[k]),
        forall|r: R| #[trigger] inner(r) ==> outer(r),
    ensures
        find_first(rows, inner) == Some(rows.filter(outer)[i]),
    decreases rows.len(),
{
    reveal(Seq::filter);
    let kept = rows.filter(outer);
    if rows.len() != 0 {
        let head = rows.drop_last();
        let last = rows.last();
        let kept_head = head.filter(outer);
        crate::db::stores::lemma_find_first_push(head, inner, last);
        assert(head.push(last) =~= rows);
        if outer(last) {
            assert(kept =~= kept_head.push(last));
            if i < kept_head.len() {
                assert forall|k: int| 0 <= k < i implies !inner(#[trigger] kept_head[k]) by {
                    assert(kept_head[k] == kept[k]);
                }
                assert(kept_head[i] == kept[i]);
                lemma_first_in_filter(head, outer, inner, i);
            } else {
                assert forall|k: int| 0 <= k < kept_head.len() implies !inner(
                    #[trigger] kept_head[k],
                ) by {
                    assert(kept_head[k] == kept[k]);
                }
                lemma_none_in_filter(head, outer, inner);
            }
        } else {
            assert(kept =~= kept_head);
            lemma_first_in_filter(head, outer, inner, i);
        }
    }
}

/// Where none of the rows that satisfy `outer` satisfies `inner`, no row
/// satisfies both.
pub proof fn lemma_none_in_filter<R>(
    rows: Seq<R>,
    outer: spec_fn(R) -> bool, inner: spec_fn(R) -> bool,
)
    requires
        forall|k: int|
            0 <= k < rows.filter(outer).len() ==> !inner(#[trigger] rows.filter(outer)[k]),
        forall|r: R| #[trigger] inner(r) ==> outer(r),
    ensures
        find_first(rows, inner) is None,
    decreases rows.len(),
{
    reveal(Seq::filter);
    let kept = rows.filter(outer);
    if rows.len() != 0 {
        let head = rows.drop_last();
        let last = rows.last();
        let kept_head = head.filter(outer);
        crate::db::stores::lemma_find_first_push(head, inner, last);
        assert(head.push(last) =~= rows);
        if outer(last) {
            assert(kept =~= kept_head.push(last));
            assert(kept[kept_head.len() as int] == last);
            assert forall|k: int| 0 <= k < kept_head.len() implies !inner(
                #[trigger] kept_head[k],
            ) by {
                assert(kept_head[k] == kept[k]);
            }
        } else {
            assert(kept =~= kept_head);
        }
        lemma_none_in_filter(head, outer, inner);
    } else {
        crate::db::stores::lemma_find_first_none(rows, inner);
    }
}

} // verus!
