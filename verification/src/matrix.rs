//! The federated side: inbound room events, the content of outbound ones,
//! and the naming of ghost users.

pub mod event_handler;
pub mod ghost;
pub mod ghost_cache;

pub use self::event_handler::{MatrixEventHandler, MatrixEventProcessor};
pub use self::ghost::GhostUserManager;

use vstd::prelude::*;
use vstd::string::StringExecFns;
use crate::config::Config;
use crate::json::{array_view, object_view, Json, JsonValue};
use crate::text::{
    decimal, opt_str_view, opt_view, owned_opt, push_decimal, starts_with, str_eq,
};
use crate::utils::BridgeError;
use crate::zulip::codec::{url_parse, url_parts};

verus! {

/// One event of a room, as delivered in a transaction.
#[derive(Debug)]
pub struct MatrixEvent {
    pub event_id: Option<String>,
    pub event_type: String,
    pub room_id: String,
    pub sender: String,
    pub state_key: Option<String>,
    pub content: Option<Json>,
    pub timestamp: Option<i64>,
    pub transaction_id: Option<String>,
}

/// The text under `key` in a document, where the document is an object and
/// the member is a string.
pub open spec fn text_at(doc: JsonValue, key: Seq<char>) -> Option<Seq<char>> {
    match doc.get(key) {
        Some(v) => v.as_str(),
        None => None,
    }
}

/// The integer under `key` in a document.
pub open spec fn int_at(doc: JsonValue, key: Seq<char>) -> Option<i64> {
    match doc.get(key) {
        Some(v) => v.as_i64(),
        None => None,
    }
}

/// The event that a relation points at: the target of a reply, or else the
/// target of an edit or a reaction.
pub open spec fn relation_target(relates_to: JsonValue) -> Option<Seq<char>> {
    match relates_to.get("m.in_reply_to"@) {
        Some(reply) => text_at(reply, "event_id"@),
        None => match text_at(relates_to, "rel_type"@) {
            Some(kind) => if kind == "m.replace"@ || kind == "m.annotation"@ {
                text_at(relates_to, "event_id"@)
            } else {
                None
            },
            None => None,
        },
    }
}

/// The key of a reaction: present only on an annotation.
pub open spec fn relation_key(relates_to: JsonValue) -> Option<Seq<char>> {
    match text_at(relates_to, "rel_type"@) {
        Some(kind) => if kind == "m.annotation"@ {
            text_at(relates_to, "key"@)
        } else {
            None
        },
        None => None,
    }
}

fn text_member<'a>(doc: &'a Json, key: &str) -> (r: Option<&'a str>)
    ensures
        opt_str_view(r) == text_at(doc@, key@),
{
    match doc.get(key) {
        Some(v) => v.as_str(),
        None => None,
    }
}

fn owned_text_member(doc: &Json, key: &str) -> (r: Option<String>)
    ensures
        opt_view(r) == text_at(doc@, key@),
{
    match text_member(doc, key) {
        Some(s) => Some(s.to_owned()),
        None => None,
    }
}

impl MatrixEvent {
    /// The value of the event's content, if it has one.
    pub open spec fn content_value(&self) -> Option<JsonValue> {
        match self.content {
            Some(c) => Some(c@),
            None => None,
        }
    }

    /// The text under `key` in the event's content.
    pub open spec fn content_text(&self, key: Seq<char>) -> Option<Seq<char>> {
        match self.content {
            Some(c) => text_at(c@, key),
            None => None,
        }
    }

    /// The relation that the event's content declares, if any.
    pub open spec fn relates_to(&self) -> Option<JsonValue> {
        match self.content {
            Some(c) => c@.get("m.relates_to"@),
            None => None,
        }
    }

    /// The text under `key` in the content.
    pub fn content_as_str(&self, key: &str) -> (r: Option<&str>)
        ensures
            opt_str_view(r) == self.content_text(key@),
    {
        match &self.content {
            Some(c) => text_member(c, key),
            None => None,
        }
    }

    /// The text under `key` in the content, as an owned string.
    pub fn content_as_string(&self, key: &str) -> (r: Option<String>)
        ensures
            opt_view(r) == self.content_text(key@),
    {
        match self.content_as_str(key) {
            Some(s) => Some(s.to_owned()),
            None => None,
        }
    }

    /// The message type that the content names.
    pub fn msgtype(&self) -> (r: Option<&str>)
        ensures
            opt_str_view(r) == self.content_text("msgtype"@),
    {
        self.content_as_str("msgtype")
    }

    /// The text of the message.
    pub fn body(&self) -> (r: Option<&str>)
        ensures
            opt_str_view(r) == self.content_text("body"@),
    {
        self.content_as_str("body")
    }

    /// The membership that the content declares.
    pub fn membership(&self) -> (r: Option<&str>)
        ensures
            opt_str_view(r) == self.content_text("membership"@),
    {
        self.content_as_str("membership")
    }

    /// The display name that the content declares.
    pub fn displayname(&self) -> (r: Option<&str>)
        ensures
            opt_str_view(r) == self.content_text("displayname"@),
    {
        self.content_as_str("displayname")
    }

    /// Whether this is a room message.
    pub fn is_message(&self) -> (r: bool)
        ensures
            r == (self.event_type@ == "m.room.message"@),
    {
        str_eq(self.event_type.as_str(), "m.room.message")
    }

    /// Whether this is a membership event.
    pub fn is_member(&self) -> (r: bool)
        ensures
            r == (self.event_type@ == "m.room.member"@),
    {
        str_eq(self.event_type.as_str(), "m.room.member")
    }

    /// Whether this is a reaction.
    pub fn is_reaction(&self) -> (r: bool)
        ensures
            r == (self.event_type@ == "m.reaction"@),
    {
        str_eq(self.event_type.as_str(), "m.reaction")
    }

    /// Whether this is a redaction.
    pub fn is_redaction(&self) -> (r: bool)
        ensures
            r == (self.event_type@ == "m.room.redaction"@),
    {
        str_eq(self.event_type.as_str(), "m.room.redaction")
    }

    /// The event that this one replies to, edits or reacts to.
    pub fn relates_to_event_id(&self) -> (r: Option<String>)
        ensures
            opt_view(r) == match self.relates_to() {
                Some(rel) => relation_target(rel),
                None => None,
            },
    {
        let content = match &self.content {
            Some(c) => c,
            None => {
                return None;
            },
        };
        let relates_to = match content.get("m.relates_to") {
            Some(rel) => rel,
            None => {
                return None;
            },
        };
        if let Some(reply_to) = relates_to.get("m.in_reply_to") {
            return owned_text_member(reply_to, "event_id");
        }
        match text_member(relates_to, "rel_type") {
            Some(kind) => {
                if str_eq(kind, "m.replace") || str_eq(kind, "m.annotation") {
                    owned_text_member(relates_to, "event_id")
                } else {
                    None
                }
            },
            None => None,
        }
    }

    /// The key of the reaction that this event makes.
    pub fn reaction_key(&self) -> (r: Option<String>)
        ensures
            opt_view(r) == match self.relates_to() {
                Some(rel) => relation_key(rel),
                None => None,
            },
    {
        let content = match &self.content {
            Some(c) => c,
            None => {
                return None;
            },
        };
        let relates_to = match content.get("m.relates_to") {
            Some(rel) => rel,
            None => {
                return None;
            },
        };
        match text_member(relates_to, "rel_type") {
            Some(kind) => {
                if str_eq(kind, "m.annotation") {
                    owned_text_member(relates_to, "key")
                } else {
                    None
                }
            },
            None => None,
        }
    }
}

/// How an event relates to another.
#[derive(Debug, Clone)]
pub enum Relation {
    /// A reply to the event `event_id`.
    Reply { event_id: String },
    /// An edit of the event `event_id`.
    Edit { event_id: String },
    /// A reaction with `key` to the event `event_id`.
    Reaction { event_id: String, key: String },
}

/// The mathematical value of a [`Relation`].
pub enum RelationView {
    Reply { event_id: Seq<char> },
    Edit { event_id: Seq<char> },
    Reaction { event_id: Seq<char>, key: Seq<char> },
}

impl View for Relation {
    type V = RelationView;

    open spec fn view(&self) -> RelationView {
        match self {
            Relation::Reply { event_id } => RelationView::Reply { event_id: event_id@ },
            Relation::Edit { event_id } => RelationView::Edit { event_id: event_id@ },
            Relation::Reaction { event_id, key } => RelationView::Reaction {
                event_id: event_id@,
                key: key@,
            },
        }
    }
}

/// The relation that a `m.relates_to` member declares: a reply where it
/// names an event to reply to; else an edit where its type is `m.replace`
/// and it names a target; else a reaction where its type is
/// `m.annotation` and it names a target and a key.
pub open spec fn relation_of(relates_to: JsonValue) -> Option<RelationView> {
    match relates_to.get("m.in_reply_to"@) {
        Some(reply) => match text_at(reply, "event_id"@) {
            Some(event_id) => Some(RelationView::Reply { event_id }),
            None => None,
        },
        None => match text_at(relates_to, "rel_type"@) {
            Some(kind) => match text_at(relates_to, "event_id"@) {
                Some(event_id) => if kind == "m.replace"@ {
                    Some(RelationView::Edit { event_id })
                } else if kind == "m.annotation"@ {
                    match text_at(relates_to, "key"@) {
                        Some(key) => Some(RelationView::Reaction { event_id, key }),
                        None => None,
                    }
                } else {
                    None
                },
                None => None,
            },
            None => None,
        },
    }
}

/// The view of an optional relation.
pub open spec fn relation_view(relation: Option<Relation>) -> Option<RelationView> {
    match relation {
        Some(r) => Some(r@),
        None => None,
    }
}

impl MatrixEvent {
    /// How this event relates to another, if it does.
    pub fn relation(&self) -> (r: Option<Relation>)
        ensures
            relation_view(r) == match self.relates_to() {
                Some(rel) => relation_of(rel),
                None => None,
            },
    {
        let content = match &self.content {
            Some(c) => c,
            None => {
                return None;
            },
        };
        let relates_to = match content.get("m.relates_to") {
            Some(rel) => rel,
            None => {
                return None;
            },
        };
        if let Some(reply_to) = relates_to.get("m.in_reply_to") {
            return match owned_text_member(reply_to, "event_id") {
                Some(event_id) => Some(Relation::Reply { event_id }),
                None => None,
            };
        }
        let kind = match text_member(relates_to, "rel_type") {
            Some(k) => k,
            None => {
                return None;
            },
        };
        let event_id = match owned_text_member(relates_to, "event_id") {
            Some(e) => e,
            None => {
                return None;
            },
        };
        if str_eq(kind, "m.replace") {
            Some(Relation::Edit { event_id })
        } else if str_eq(kind, "m.annotation") {
            match owned_text_member(relates_to, "key") {
                Some(key) => Some(Relation::Reaction { event_id, key }),
                None => None,
            }
        } else {
            None
        }
    }

    /// The text that an edit makes the new text of its target: the body of
    /// the new content.
    pub open spec fn new_body_text(&self) -> Option<Seq<char>> {
        match self.content {
            Some(c) => match c@.get("m.new_content"@) {
                Some(fresh) => text_at(fresh, "body"@),
                None => None,
            },
            None => None,
        }
    }

    /// The text that an edit makes the new text of its target.
    pub fn new_body(&self) -> (r: Option<&str>)
        ensures
            opt_str_view(r) == self.new_body_text(),
    {
        match &self.content {
            Some(c) => match c.get("m.new_content") {
                Some(fresh) => text_member(fresh, "body"),
                None => None,
            },
            None => None,
        }
    }

    /// The event that a redaction removes.
    pub open spec fn redacted_event(&self) -> Option<Seq<char>> {
        self.content_text("redacts"@)
    }

    /// The event that a redaction removes.
    pub fn redacts(&self) -> (r: Option<&str>)
        ensures
            opt_str_view(r) == self.redacted_event(),
    {
        self.content_as_str("redacts")
    }
}

/// The text under `key`, or the empty text where there is none.
pub open spec fn text_or_empty(doc: JsonValue, key: Seq<char>) -> Seq<char> {
    match text_at(doc, key) {
        Some(s) => s,
        None => Seq::empty(),
    }
}

/// Whether `event` is what the raw document `raw` describes: each optional
/// field as the document has it, each mandatory field empty where the
/// document lacks it.
pub open spec fn event_matches(event: MatrixEvent, raw: JsonValue) -> bool {
    &&& opt_view(event.event_id) == text_at(raw, "event_id"@)
    &&& event.event_type@ == text_or_empty(raw, "type"@)
    &&& event.room_id@ == text_or_empty(raw, "room_id"@)
    &&& event.sender@ == text_or_empty(raw, "sender"@)
    &&& opt_view(event.state_key) == text_at(raw, "state_key"@)
    &&& event.content_value() == raw.get("content"@)
    &&& event.timestamp == int_at(raw, "origin_server_ts"@)
    &&& opt_view(event.transaction_id) == text_at(raw, "transaction_id"@)
}

fn text_member_or_empty(doc: &Json, key: &str) -> (r: String)
    ensures
        r@ == text_or_empty(doc@, key@),
{
    match text_member(doc, key) {
        Some(s) => s.to_owned(),
        None => String::new(),
    }
}

/// Reads one raw event of a transaction.
pub fn event_from_json(raw: &Json) -> (event: MatrixEvent)
    ensures
        event_matches(event, raw@),
{
    let content = match raw.get("content") {
        Some(c) => Some(c.duplicate()),
        None => None,
    };
    let timestamp = match raw.get("origin_server_ts") {
        Some(t) => t.as_i64(),
        None => None,
    };
    MatrixEvent {
        event_id: owned_text_member(raw, "event_id"),
        event_type: text_member_or_empty(raw, "type"),
        room_id: text_member_or_empty(raw, "room_id"),
        sender: text_member_or_empty(raw, "sender"),
        state_key: owned_text_member(raw, "state_key"),
        content,
        timestamp,
        transaction_id: owned_text_member(raw, "transaction_id"),
    }
}

/// The raw events that a transaction body carries: the items of its
/// `events` array, or none where it has no such array.
pub open spec fn transaction_events(body: JsonValue) -> Seq<JsonValue> {
    match body.get("events"@) {
        Some(events) => match events.as_array() {
            Some(items) => items,
            None => Seq::empty(),
        },
        None => Seq::empty(),
    }
}

/// Reads the events of a transaction, in the order of its `events` array.
pub fn events_of_transaction(body: &Json) -> (events: Vec<MatrixEvent>)
    ensures
        events@.len() == transaction_events(body@).len(),
        forall|i: int|
            0 <= i < events@.len() ==> event_matches(
                #[trigger] events@[i],
                transaction_events(body@)[i],
            ),
{
    let mut out: Vec<MatrixEvent> = Vec::new();
    let items = match body.get("events") {
        Some(events) => match events.as_array() {
            Some(items) => items,
            None => {
                return out;
            },
        },
        None => {
            return out;
        },
    };
    let mut i: usize = 0;
    while i < items.len()
        invariant
            i <= items.len(),
            out@.len() == i,
            transaction_events(body@) == array_view(items@),
            forall|k: int| 0 <= k < i ==> event_matches(#[trigger] out@[k], items@[k]@),
        decreases items.len() - i,
    {
        let event = event_from_json(&items[i]);
        out.push(event);
        i += 1;
    }
    out
}

/// The localpart of the ghost of a user of the team-chat side.
pub open spec fn ghost_localpart_of(zulip_user_id: int) -> Seq<char> {
    "_zulip_"@ + decimal(zulip_user_id)
}

/// The full identifier of the ghost of a user of the team-chat side.
pub open spec fn ghost_user_id_of(zulip_user_id: int, domain: Seq<char>) -> Seq<char> {
    "@"@ + ghost_localpart_of(zulip_user_id) + ":"@ + domain
}

/// Whether a user identifier lies in the ghost namespace: its localpart
/// starts with the ghost prefix.
pub open spec fn in_ghost_namespace(user_id: Seq<char>) -> bool {
    "@_zulip_"@.is_prefix_of(user_id)
}

/// The localpart of the ghost of the user `zulip_user_id`.
pub fn ghost_user_localpart(zulip_user_id: i64) -> (r: String)
    ensures
        r@ == ghost_localpart_of(zulip_user_id as int),
{
    let mut out = String::from_str("_zulip_");
    push_decimal(&mut out, zulip_user_id);
    out
}

/// The identifier of the ghost of the user `zulip_user_id` on `domain`.
pub fn ghost_user_id(zulip_user_id: i64, domain: &str) -> (r: String)
    ensures
        r@ == ghost_user_id_of(zulip_user_id as int, domain@),
{
    let mut out = String::from_str("@");
    out.append(ghost_user_localpart(zulip_user_id).as_str());
    out.append(":");
    out.append(domain);
    out
}

/// Whether `user_id` lies in the ghost namespace.
pub fn is_namespaced_user(user_id: &str) -> (r: bool)
    ensures
        r == in_ghost_namespace(user_id@),
{
    starts_with(user_id, "@_zulip_")
}

/// The members of a plain text message, with its HTML form where there is
/// one.
pub open spec fn text_members_of(body: Seq<char>, formatted: Option<Seq<char>>) -> Seq<
    (Seq<char>, JsonValue),
> {
    match formatted {
        Some(html) => seq![
            ("msgtype"@, JsonValue::Str("m.text"@)),
            ("body"@, JsonValue::Str(body)),
            ("format"@, JsonValue::Str("org.matrix.custom.html"@)),
            ("formatted_body"@, JsonValue::Str(html)),
        ],
        None => seq![("msgtype"@, JsonValue::Str("m.text"@)), ("body"@, JsonValue::Str(body))],
    }
}

/// The relation of a reply to its target.
pub open spec fn reply_relation_of(target: Seq<char>) -> JsonValue {
    JsonValue::Object(
        seq![("m.in_reply_to"@, JsonValue::Object(seq![("event_id"@, JsonValue::Str(target))]))],
    )
}

/// The relation of an edit to the event it replaces.
pub open spec fn replace_relation_of(target: Seq<char>) -> JsonValue {
    JsonValue::Object(
        seq![("rel_type"@, JsonValue::Str("m.replace"@)), ("event_id"@, JsonValue::Str(target))],
    )
}

/// The content of a reaction with `key` to the event `target`.
pub open spec fn reaction_content_of(target: Seq<char>, key: Seq<char>) -> JsonValue {
    JsonValue::Object(
        seq![
            (
                "m.relates_to"@,
                JsonValue::Object(
                    seq![
                        ("rel_type"@, JsonValue::Str("m.annotation"@)),
                        ("event_id"@, JsonValue::Str(target)),
                        ("key"@, JsonValue::Str(key)),
                    ],
                ),
            ),
        ],
    )
}

/// The content of a room message. A plain message holds the text members. A
/// reply adds its relation. An edit marks the top-level body with `* `,
/// carries the fresh text as the new content and relates to the event it
/// replaces; where both a reply target and an edit target are given, the
/// edit's relation stands.
pub open spec fn message_content_of(
    body: Seq<char>,
    formatted: Option<Seq<char>>,
    reply_to: Option<Seq<char>>,
    edit_of: Option<Seq<char>>,
) -> JsonValue {
    match edit_of {
        Some(target) => JsonValue::Object(
            text_members_of("* "@ + body, formatted) + seq![
                ("m.new_content"@, JsonValue::Object(text_members_of(body, formatted))),
                ("m.relates_to"@, replace_relation_of(target)),
            ],
        ),
        None => match reply_to {
            Some(target) => JsonValue::Object(
                text_members_of(body, formatted) + seq![
                    ("m.relates_to"@, reply_relation_of(target)),
                ],
            ),
            None => JsonValue::Object(text_members_of(body, formatted)),
        },
    }
}

fn text_members(body: &str, formatted: Option<&str>) -> (r: Vec<(String, Json)>)
    ensures
        object_view(r@) == text_members_of(body@, opt_str_view(formatted)),
{
    let mut members: Vec<(String, Json)> = Vec::new();
    members.push(Json::member("msgtype", Json::text("m.text")));
    members.push(Json::member("body", Json::text(body)));
    if let Some(html) = formatted {
        members.push(Json::member("format", Json::text("org.matrix.custom.html")));
        members.push(Json::member("formatted_body", Json::text(html)));
    }
    assert(object_view(members@) =~= text_members_of(body@, opt_str_view(formatted)));
    members
}

fn reply_relation(target: &str) -> (r: Json)
    ensures
        r@ == reply_relation_of(target@),
{
    let mut inner: Vec<(String, Json)> = Vec::new();
    inner.push(Json::member("event_id", Json::text(target)));
    assert(object_view(inner@) =~= seq![("event_id"@, JsonValue::Str(target@))]);
    let mut outer: Vec<(String, Json)> = Vec::new();
    outer.push(Json::member("m.in_reply_to", Json::object(inner)));
    assert(object_view(outer@) =~= reply_relation_of(target@)->Object_0);
    Json::object(outer)
}

fn replace_relation(target: &str) -> (r: Json)
    ensures
        r@ == replace_relation_of(target@),
{
    let mut members: Vec<(String, Json)> = Vec::new();
    members.push(Json::member("rel_type", Json::text("m.replace")));
    members.push(Json::member("event_id", Json::text(target)));
    assert(object_view(members@) =~= replace_relation_of(target@)->Object_0);
    Json::object(members)
}

/// Builds the content of a room message.
pub fn build_matrix_message_content(
    body: &str,
    formatted_body: Option<&str>,
    reply_to: Option<&str>,
    edit_of: Option<&str>,
) -> (r: Json)
    ensures
        r@ == message_content_of(
            body@,
            opt_str_view(formatted_body),
            opt_str_view(reply_to),
            opt_str_view(edit_of),
        ),
{
    match edit_of {
        Some(target) => {
            let mut marked = String::from_str("* ");
            marked.append(body);
            let mut members = text_members(marked.as_str(), formatted_body);
            let ghost head = object_view(members@);
            let fresh = Json::object(text_members(body, formatted_body));
            members.push(Json::member("m.new_content", fresh));
            members.push(Json::member("m.relates_to", replace_relation(target)));
            assert(object_view(members@) =~= head + seq![
                (
                    "m.new_content"@,
                    JsonValue::Object(text_members_of(body@, opt_str_view(formatted_body))),
                ),
                ("m.relates_to"@, replace_relation_of(target@)),
            ]);
            Json::object(members)
        },
        None => match reply_to {
            Some(target) => {
                let mut members = text_members(body, formatted_body);
                let ghost head = object_view(members@);
                members.push(Json::member("m.relates_to", reply_relation(target)));
                assert(object_view(members@) =~= head + seq![
                    ("m.relates_to"@, reply_relation_of(target@)),
                ]);
                Json::object(members)
            },
            None => Json::object(text_members(body, formatted_body)),
        },
    }
}

/// Builds the content of a reaction with `key` to the event `target`.
pub fn build_reaction_content(target: &str, key: &str) -> (r: Json)
    ensures
        r@ == reaction_content_of(target@, key@),
{
    let mut inner: Vec<(String, Json)> = Vec::new();
    inner.push(Json::member("rel_type", Json::text("m.annotation")));
    inner.push(Json::member("event_id", Json::text(target)));
    inner.push(Json::member("key", Json::text(key)));
    assert(object_view(inner@) =~= seq![
        ("rel_type"@, JsonValue::Str("m.annotation"@)),
        ("event_id"@, JsonValue::Str(target@)),
        ("key"@, JsonValue::Str(key@)),
    ]);
    let mut outer: Vec<(String, Json)> = Vec::new();
    outer.push(Json::member("m.relates_to", Json::object(inner)));
    assert(object_view(outer@) =~= reaction_content_of(target@, key@)->Object_0);
    Json::object(outer)
}

/// What the bot does about a room, given its own membership there.
#[derive(Debug, Clone, Copy, PartialEq, Eq, Structural)]
pub enum JoinDecision {
    /// The bot is a member: nothing to do, and nothing newly joined.
    AlreadyJoined,
    /// The bot is invited: it accepts, and has then newly joined.
    AcceptInvite,
    /// Anything else: the bot is not in the room and does not join.
    NotInRoom,
}

impl JoinDecision {
    /// Whether the bot has newly joined the room once the decision is
    /// carried out.
    pub open spec fn newly_joined(self) -> bool {
        self == JoinDecision::AcceptInvite
    }

    /// Whether the bot has newly joined the room once the decision is
    /// carried out.
    pub fn joins(self) -> (r: bool)
        ensures
            r == self.newly_joined(),
    {
        match self {
            JoinDecision::AcceptInvite => true,
            _ => false,
        }
    }
}

/// The decision that a membership calls for.
pub open spec fn join_decision_of(membership: Option<Seq<char>>) -> JoinDecision {
    match membership {
        Some(m) => if m == "join"@ {
            JoinDecision::AlreadyJoined
        } else if m == "invite"@ {
            JoinDecision::AcceptInvite
        } else {
            JoinDecision::NotInRoom
        },
        None => JoinDecision::NotInRoom,
    }
}

/// The membership that a member state event declares.
pub open spec fn membership_of(state: Option<JsonValue>) -> Option<Seq<char>> {
    match state {
        Some(s) => text_at(s, "membership"@),
        None => None,
    }
}

/// What is asked of the homeserver to create a room.
#[derive(Debug, Clone)]
pub struct CreateRoomRequest {
    pub visibility: String,
    pub room_alias_name: Option<String>,
    pub name: String,
    pub topic: Option<String>,
}

/// An event to send into a room as a given user.
#[derive(Debug)]
pub struct OutboundEvent {
    pub room_id: String,
    pub sender: String,
    pub event_type: String,
    pub content: Json,
}

impl OutboundEvent {
    /// Whether this is the event of type `event_type` with the content
    /// `content`, for the room `room_id`, sent as `sender`.
    pub open spec fn is(
        &self,
        room_id: Seq<char>,
        sender: Seq<char>,
        event_type: Seq<char>,
        content: JsonValue,
    ) -> bool {
        &&& self.room_id@ == room_id
        &&& self.sender@ == sender
        &&& self.event_type@ == event_type
        &&& self.content@ == content
    }
}

/// The redaction of an event, made as a given user.
#[derive(Debug, Clone)]
pub struct Redaction {
    pub room_id: String,
    pub sender: String,
    pub event_id: String,
    pub reason: Option<String>,
}

/// The federated side as the bridge sees it: what the bridge is called
/// there, and the shape of what it sends. The calls themselves are the
/// caller's to make.
pub struct MatrixAppservice {
    config: Config,
}

impl MatrixAppservice {
    /// The settings that the appservice was made with.
    pub closed spec fn settings(&self) -> Config {
        self.config
    }

    /// An appservice for the settings `config`. Fails where the address of
    /// the homeserver is not an address.
    pub fn new(config: Config) -> (r: Result<Self, BridgeError>)
        ensures
            match r {
                Ok(appservice) => url_parts(config.bridge.homeserver_url@) is Ok
                    && appservice.settings() == config,
                Err(e) => {
                    &&& url_parts(config.bridge.homeserver_url@) matches Err(reason)
                    &&& e matches BridgeError::Parse(m)
                    &&& m@ == reason
                },
            },
    {
        match url_parse(config.bridge.homeserver_url.as_str()) {
            Ok(_) => Ok(MatrixAppservice { config }),
            Err(reason) => Err(BridgeError::Parse(reason)),
        }
    }

    /// The settings that the appservice was made with.
    pub fn config(&self) -> (r: &Config)
        ensures
            *r == self.settings(),
    {
        &self.config
    }

    /// The identifier of the bot: its localpart on the bridge's domain.
    pub fn bot_user_id(&self) -> (r: String)
        ensures
            r@ == "@"@ + self.settings().registration.sender_localpart@ + ":"@
                + self.settings().bridge.domain@,
    {
        let mut out = String::from_str("@");
        out.append(self.config.registration.sender_localpart.as_str());
        out.append(":");
        out.append(self.config.bridge.domain.as_str());
        out
    }

    /// Whether `user_id` lies in the ghost namespace.
    pub fn is_namespaced_user(&self, user_id: &str) -> (r: bool)
        ensures
            r == in_ghost_namespace(user_id@),
    {
        is_namespaced_user(user_id)
    }

    /// The identifier of the ghost of the user `zulip_user_id` on the
    /// bridge's domain.
    pub fn ghost_user_id(&self, zulip_user_id: i64) -> (r: String)
        ensures
            r@ == ghost_user_id_of(zulip_user_id as int, self.settings().bridge.domain@),
    {
        ghost_user_id(zulip_user_id, self.config.bridge.domain.as_str())
    }

    /// What the bot does about a room, given the state event of its own
    /// membership there, if that could be read: a member stays, an invited
    /// bot accepts, and in every other case the bot is not in the room.
    pub fn ensure_bot_joined_room(&self, state: Option<&Json>) -> (r: JoinDecision)
        ensures
            r == join_decision_of(
                membership_of(
                    match state {
                        Some(s) => Some(s@),
                        None => None,
                    },
                ),
            ),
    {
        let membership = match state {
            Some(s) => text_member(s, "membership"),
            None => None,
        };
        match membership {
            Some(m) => {
                if str_eq(m, "join") {
                    JoinDecision::AlreadyJoined
                } else if str_eq(m, "invite") {
                    JoinDecision::AcceptInvite
                } else {
                    JoinDecision::NotInRoom
                }
            },
            None => JoinDecision::NotInRoom,
        }
    }

    /// What to ask of the homeserver for a new room.
    pub fn create_room(
        &self,
        name: &str,
        alias_localpart: Option<&str>,
        topic: Option<&str>,
        is_public: bool,
    ) -> (r: CreateRoomRequest)
        ensures
            r.visibility@ == if is_public {
                "public"@
            } else {
                "private"@
            },
            opt_view(r.room_alias_name) == opt_str_view(alias_localpart),
            r.name@ == name@,
            opt_view(r.topic) == opt_str_view(topic),
    {
        CreateRoomRequest {
            visibility: String::from_str(
                if is_public {
                    "public"
                } else {
                    "private"
                },
            ),
            room_alias_name: owned_opt(alias_localpart),
            name: name.to_owned(),
            topic: owned_opt(topic),
        }
    }

    fn message_event(&self, room_id: &str, sender: &str, content: Json) -> (r: OutboundEvent)
        ensures
            r.is(room_id@, sender@, "m.room.message"@, content@),
    {
        OutboundEvent {
            room_id: room_id.to_owned(),
            sender: sender.to_owned(),
            event_type: String::from_str("m.room.message"),
            content,
        }
    }

    /// The message with the text `content`, sent into `room_id` as
    /// `sender`.
    pub fn send_message(
        &self,
        room_id: &str,
        sender: &str,
        content: &str,
        formatted_content: Option<&str>,
    ) -> (r: OutboundEvent)
        ensures
            r.is(
                room_id@,
                sender@,
                "m.room.message"@,
                message_content_of(content@, opt_str_view(formatted_content), None, None),
            ),
    {
        let body = build_matrix_message_content(content, formatted_content, None, None);
        self.message_event(room_id, sender, body)
    }

    /// The message with the text `content`, sent into `room_id` as `sender`
    /// in reply to the event `reply_to`.
    pub fn send_message_with_reply(
        &self,
        room_id: &str,
        sender: &str,
        content: &str,
        formatted_content: Option<&str>,
        reply_to: &str,
    ) -> (r: OutboundEvent)
        ensures
            r.is(
                room_id@,
                sender@,
                "m.room.message"@,
                message_content_of(
                    content@,
                    opt_str_view(formatted_content),
                    Some(reply_to@),
                    None,
                ),
            ),
    {
        let body = build_matrix_message_content(content, formatted_content, Some(reply_to), None);
        self.message_event(room_id, sender, body)
    }

    /// The message that makes `content` the text of the event `edit_of`,
    /// sent into `room_id` as `sender`.
    pub fn send_message_edit(
        &self,
        room_id: &str,
        sender: &str,
        content: &str,
        formatted_content: Option<&str>,
        edit_of: &str,
    ) -> (r: OutboundEvent)
        ensures
            r.is(
                room_id@,
                sender@,
                "m.room.message"@,
                message_content_of(
                    content@,
                    opt_str_view(formatted_content),
                    None,
                    Some(edit_of@),
                ),
            ),
    {
        let body = build_matrix_message_content(content, formatted_content, None, Some(edit_of));
        self.message_event(room_id, sender, body)
    }

    /// The reaction with `key` to the event `event_id`, sent into `room_id`
    /// as `sender`.
    pub fn send_reaction(&self, room_id: &str, sender: &str, event_id: &str, key: &str) -> (r:
        OutboundEvent)
        ensures
            r.is(room_id@, sender@, "m.reaction"@, reaction_content_of(event_id@, key@)),
    {
        OutboundEvent {
            room_id: room_id.to_owned(),
            sender: sender.to_owned(),
            event_type: String::from_str("m.reaction"),
            content: build_reaction_content(event_id, key),
        }
    }

    /// The redaction of the event `event_id` in `room_id`, made as
    /// `sender`.
    pub fn redact_event(
        &self,
        room_id: &str,
        sender: &str,
        event_id: &str,
        reason: Option<&str>,
    ) -> (r: Redaction)
        ensures
            r.room_id@ == room_id@,
            r.sender@ == sender@,
            r.event_id@ == event_id@,
            opt_view(r.reason) == opt_str_view(reason),
    {
        Redaction {
            room_id: room_id.to_owned(),
            sender: sender.to_owned(),
            event_id: event_id.to_owned(),
            reason: owned_opt(reason),
        }
    }
}

/// What became of a transaction.
#[derive(Debug)]
pub struct TransactionReport {
    /// Whether the transaction was taken before and is not taken again.
    pub repeated: bool,
    /// How many events of the transaction were handed on.
    pub events: usize,
    /// The failures of the handlers, each with the position of its event in
    /// the transaction, in the order of the events.
    pub failures: Vec<(usize, BridgeError)>,
    /// Whether the homeserver is to deliver the transaction again, because
    /// the mapping store could not be reached.
    pub retry: bool,
}

/// Whether `failures` names positions below `events`, each greater than
/// the one before.
pub open spec fn failures_in_order(failures: Seq<(usize, BridgeError)>, events: int) -> bool {
    &&& forall|k: int| 0 <= k < failures.len() ==> (#[trigger] failures[k]).0 < events
    &&& forall|j: int, k: int|
        0 <= j < k < failures.len() ==> (#[trigger] failures[j]).0 < (#[trigger] failures[k]).0
}

/// What `failures` reports for the event at position `i`: the failure
/// named for that position, or success where none is.
pub open spec fn outcome_at(failures: Seq<(usize, BridgeError)>, i: int) -> Result<
    (),
    BridgeError,
>
    decreases failures.len(),
{
    if failures.len() == 0 {
        Ok(())
    } else if failures.last().0 == i {
        Err(failures.last().1)
    } else {
        outcome_at(failures.drop_last(), i)
    }
}

/// Whether one of `failures` reports that the mapping store could not be
/// reached.
pub open spec fn retry_owed(failures: Seq<(usize, BridgeError)>) -> bool {
    exists|k: int| 0 <= k < failures.len() && (#[trigger] failures[k]).1.store_unreachable()
}

/// Failures that name only positions below `i` report success for the
/// position `i`.
pub proof fn lemma_no_failure_yet(failures: Seq<(usize, BridgeError)>, i: int)
    requires
        failures_in_order(failures, i),
    ensures
        outcome_at(failures, i) == Ok::<(), BridgeError>(()),
    decreases failures.len(),
{
    if failures.len() != 0 {
        let rest = failures.drop_last();
        assert(failures[failures.len() - 1].0 < i);
        assert forall|k: int| 0 <= k < rest.len() implies (#[trigger] rest[k]).0 < i by {
            assert(rest[k] == failures[k]);
        }
        assert forall|j: int, k: int| 0 <= j < k < rest.len() implies (#[trigger] rest[j]).0
            < (#[trigger] rest[k]).0 by {
            assert(rest[j] == failures[j]);
            assert(rest[k] == failures[k]);
        }
        lemma_no_failure_yet(rest, i);
    }
}

/// Every failure that is named is reported for its position: where the
/// positions ascend, the outcome at the position of the `k`-th failure is
/// that failure.
pub proof fn lemma_failure_is_reported(failures: Seq<(usize, BridgeError)>, events: int, k: int)
    requires
        failures_in_order(failures, events),
        0 <= k < failures.len(),
    ensures
        outcome_at(failures, failures[k].0 as int) == Err::<(), BridgeError>(failures[k].1),
    decreases failures.len(),
{
    if k < failures.len() - 1 {
        let rest = failures.drop_last();
        assert(failures[k].0 < failures[failures.len() - 1].0);
        assert forall|j: int| 0 <= j < rest.len() implies (#[trigger] rest[j]).0 < events by {
            assert(rest[j] == failures[j]);
        }
        assert forall|i: int, j: int| 0 <= i < j < rest.len() implies (#[trigger] rest[i]).0
            < (#[trigger] rest[j]).0 by {
            assert(rest[i] == failures[i]);
            assert(rest[j] == failures[j]);
        }
        assert(rest[k] == failures[k]);
        lemma_failure_is_reported(rest, events, k);
    }
}

/// A transaction that was taken to the end is not taken again: once its id
/// is noted, the ids that are noted hold it, whatever is noted after it.
pub proof fn lemma_completed_transaction_stays_noted(
    completed: Seq<Seq<char>>,
    txn_id: Seq<char>,
    later: Seq<Seq<char>>,
)
    ensures
        (completed.push(txn_id) + later).contains(txn_id),
{
    let all = completed.push(txn_id) + later;
    assert(all[completed.len() as int] == txn_id);
}

/// Whether `result` is what came of handing the raw event `raw` to
/// `processor`: an event that the raw event describes was processed at
/// some instant with that result.
pub open spec fn handed_on<H: MatrixEventHandler>(
    processor: MatrixEventProcessor<H>,
    raw: JsonValue,
    result: Result<(), BridgeError>,
) -> bool {
    exists|event: MatrixEvent, now: i64|
        event_matches(event, raw) && #[trigger] processor.processed(event, now, result)
}

/// The transactions that were taken to the end, by their ids, in the order
/// in which they ended. The log forgets nothing: it holds one id for every
/// transaction that was taken.
pub struct TransactionLog {
    completed: Vec<String>,
}

impl TransactionLog {
    /// The ids of the transactions that were taken to the end.
    pub closed spec fn ids(&self) -> Seq<Seq<char>> {
        Seq::new(self.completed@.len(), |k: int| self.completed@[k]@)
    }

    /// A log that holds no transaction.
    pub fn new() -> (r: Self)
        ensures
            r.ids() == Seq::<Seq<char>>::empty(),
    {
        let r = TransactionLog { completed: Vec::new() };
        assert(r.ids() =~= Seq::<Seq<char>>::empty());
        r
    }

    /// Whether the transaction `txn_id` was taken to the end.
    pub fn is_completed(&self, txn_id: &str) -> (r: bool)
        ensures
            r == self.ids().contains(txn_id@),
    {
        let mut i: usize = 0;
        while i < self.completed.len()
            invariant
                i <= self.completed@.len(),
                forall|k: int| 0 <= k < i ==> self.ids()[k] != txn_id@,
            decreases self.completed@.len() - i,
        {
            if str_eq(self.completed[i].as_str(), txn_id) {
                assert(self.ids()[i as int] == txn_id@);
                return true;
            }
            i += 1;
        }
        false
    }

    /// Notes that the transaction `txn_id` was taken to the end. A
    /// transaction that the log holds is not noted again.
    pub fn complete(&mut self, txn_id: &str)
        ensures
            final(self).ids() == if old(self).ids().contains(txn_id@) {
                old(self).ids()
            } else {
                old(self).ids().push(txn_id@)
            },
    {
        if !self.is_completed(txn_id) {
            self.completed.push(txn_id.to_owned());
            assert(self.ids() =~= old(self).ids().push(txn_id@));
        }
    }
}

/// Receives the transactions that the homeserver pushes.
pub struct BridgeAppserviceHandler<H: MatrixEventHandler> {
    processor: Option<MatrixEventProcessor<H>>,
    log: TransactionLog,
}

impl<H: MatrixEventHandler> BridgeAppserviceHandler<H> {
    /// The processor that the events are handed to, if one is set.
    pub closed spec fn processor(&self) -> Option<MatrixEventProcessor<H>> {
        self.processor
    }

    /// The ids of the transactions that were taken to the end.
    pub closed spec fn completed(&self) -> Seq<Seq<char>> {
        self.log.ids()
    }

    /// Whether a processor is set.
    pub open spec fn has_processor(&self) -> bool {
        self.processor() is Some
    }

    /// A receiver without a processor, which has taken no transaction: it
    /// accepts transactions and does nothing with them.
    pub fn new() -> (r: Self)
        ensures
            r.processor() is None,
            r.completed() == Seq::<Seq<char>>::empty(),
    {
        BridgeAppserviceHandler { processor: None, log: TransactionLog::new() }
    }

    /// Sets the processor that the events are handed to.
    pub fn set_processor(&mut self, processor: MatrixEventProcessor<H>)
        ensures
            final(self).processor() == Some(processor),
            final(self).completed() == old(self).completed(),
    {
        self.processor = Some(processor);
    }

    /// Takes the transaction `txn_id`. Without a processor nothing is read
    /// and nothing is noted. A transaction that was taken to the end before
    /// is not taken again: none of its events is handed on. Of any other,
    /// every event is read and handed to the processor, in the order of the
    /// transaction; a failure of a handler does not stop the transaction
    /// and is reported with the position of its event, so that the report
    /// says of every event what came of it. The transaction is then noted
    /// as taken to the end, unless a failure reports that the mapping store
    /// could not be reached: such a transaction is to be delivered again.
    pub fn on_transaction(&mut self, txn_id: &str, body: &Json) -> (r: TransactionReport)
        ensures
            final(self).processor() == old(self).processor(),
            r.repeated == (old(self).has_processor() && old(self).completed().contains(txn_id@)),
            r.retry == retry_owed(r.failures@),
            failures_in_order(r.failures@, r.events as int),
            final(self).completed().contains(txn_id@) <==> old(self).completed().contains(txn_id@)
                || (old(self).has_processor() && !r.retry),
            match old(self).processor() {
                Some(processor) => if r.repeated {
                    &&& r.events == 0
                    &&& r.failures@.len() == 0
                    &&& final(self).completed() == old(self).completed()
                } else {
                    &&& r.events == transaction_events(body@).len()
                    &&& forall|i: int|
                        0 <= i < r.events ==> handed_on(
                            processor,
                            transaction_events(body@)[i],
                            #[trigger] outcome_at(r.failures@, i),
                        )
                    &&& final(self).completed() == if r.retry {
                        old(self).completed()
                    } else {
                        old(self).completed().push(txn_id@)
                    }
                },
                None => {
                    &&& r.events == 0
                    &&& r.failures@.len() == 0
                    &&& final(self).completed() == old(self).completed()
                },
            },
    {
        let mut failures: Vec<(usize, BridgeError)> = Vec::new();
        let processor = match &self.processor {
            Some(p) => p,
            None => {
                return TransactionReport { repeated: false, events: 0, failures, retry: false };
            },
        };
        if self.log.is_completed(txn_id) {
            return TransactionReport { repeated: true, events: 0, failures, retry: false };
        }
        let events = events_of_transaction(body);
        let ghost raw = transaction_events(body@);
        let mut retry = false;
        let mut i: usize = 0;
        while i < events.len()
            invariant
                i <= events@.len(),
                events@.len() == raw.len(),
                forall|k: int|
                    0 <= k < events@.len() ==> event_matches(#[trigger] events@[k], raw[k]),
                failures_in_order(failures@, i as int),
                retry == retry_owed(failures@),
                forall|k: int|
                    0 <= k < i ==> handed_on(
                        *processor,
                        raw[k],
                        #[trigger] outcome_at(failures@, k),
                    ),
            decreases events@.len() - i,
        {
            let ghost before = failures@;
            let result = processor.process_event(&events[i]);
            proof {
                lemma_no_failure_yet(before, i as int);
                let now = choose|now: i64| #[trigger]
                    processor.processed(events@[i as int], now, result);
                assert(event_matches(events@[i as int], raw[i as int]));
                assert(processor.processed(events@[i as int], now, result));
                assert(handed_on(*processor, raw[i as int], result));
            }
            match result {
                Ok(unit) => {
                    assert(unit == ());
                },
                Err(e) => {
                    if e.is_store_unreachable() {
                        retry = true;
                    }
                    failures.push((i, e));
                    proof {
                        assert(failures@.drop_last() =~= before);
                        assert(failures@.last() == (i, e));
                        assert(retry_owed(failures@) == (retry_owed(before)
                            || e.store_unreachable())) by {
                            if retry_owed(before) {
                                let k = choose|k: int|
                                    0 <= k < before.len()
                                        && (#[trigger] before[k]).1.store_unreachable();
                                assert(failures@[k] == before[k]);
                            }
                            if e.store_unreachable() {
                                assert(failures@[failures@.len() - 1].1.store_unreachable());
                            }
                            if retry_owed(failures@) {
                                let k = choose|k: int|
                                    0 <= k < failures@.len()
                                        && (#[trigger] failures@[k]).1.store_unreachable();
                                if k < before.len() {
                                    assert(before[k] == failures@[k]);
                                }
                            }
                        }
                    }
                },
            }
            proof {
                assert forall|k: int| 0 <= k < i implies handed_on(
                    *processor,
                    raw[k],
                    #[trigger] outcome_at(failures@, k),
                ) by {
                    assert(outcome_at(failures@, k) == outcome_at(before, k));
                    assert(handed_on(*processor, raw[k], outcome_at(before, k)));
                }
            }
            i += 1;
        }
        if !retry {
            self.log.complete(txn_id);
            proof {
                let noted = old(self).completed();
                assert(noted.push(txn_id@)[noted.len() as int] == txn_id@);
            }
        }
        TransactionReport { repeated: false, events: events.len(), failures, retry }
    }
}

} // verus!
