use matrix_bridge_zulip::config::{
    BridgeConfig, Config, DatabaseConfig, DbType, LimitsConfig, LoggingConfig, RegistrationConfig,
    RoomConfig, ZulipConfig,
};
use matrix_bridge_zulip::json::Json;
use matrix_bridge_zulip::matrix::event_handler::{
    event_kind, DefaultMatrixEventHandler, MatrixEventKind, MatrixRoute, DEFAULT_AGE_LIMIT_MS,
};
use matrix_bridge_zulip::matrix::{
    build_matrix_message_content, build_reaction_content, event_from_json, events_of_transaction,
    ghost_user_id, ghost_user_localpart, is_namespaced_user, BridgeAppserviceHandler,
    JoinDecision, MatrixAppservice, MatrixEvent, MatrixEventHandler, MatrixEventProcessor,
    TransactionLog,
};
use matrix_bridge_zulip::utils::BridgeError;
use std::cell::RefCell;
use std::rc::Rc;

fn text_at<'a>(doc: &'a Json, path: &[&str]) -> Option<&'a str> {
    let mut at = doc;
    for key in path {
        at = at.get(key)?;
    }
    at.as_str()
}

fn message_event(event_type: &str, timestamp: Option<i64>, content: Option<Json>) -> MatrixEvent {
    MatrixEvent {
        event_id: Some("$e1".to_string()),
        event_type: event_type.to_string(),
        room_id: "!r:h".to_string(),
        sender: "@alice:h".to_string(),
        state_key: None,
        content,
        timestamp,
        transaction_id: None,
    }
}

fn config(homeserver_url: &str) -> Config {
    Config {
        bridge: BridgeConfig {
            homeserver_url: homeserver_url.to_string(),
            domain: "h".to_string(),
            bind_address: "127.0.0.1".to_string(),
            port: 28464,
            disable_presence: false,
            presence_interval: 5000,
        },
        database: DatabaseConfig {
            db_type: DbType::Postgres,
            url: "postgres://localhost/bridge".to_string(),
            max_connections: 10,
        },
        registration: RegistrationConfig {
            bridge_id: "zulipbridge".to_string(),
            sender_localpart: "zulipbridge".to_string(),
            appservice_token: "as".to_string(),
            homeserver_token: "hs".to_string(),
        },
        zulip: ZulipConfig {
            puppet_separator: "_".to_string(),
            puppet_prefix: "zulip_".to_string(),
            member_sync: "half".to_string(),
            max_backfill_amount: 100,
        },
        room: RoomConfig { default_visibility: "private".to_string(), room_alias_prefix: String::new() },
        limits: LimitsConfig { matrix_event_age_limit_ms: 300000, room_count: 0 },
        logging: LoggingConfig::default(),
    }
}

#[test]
fn plain_text_content() {
    let c = build_matrix_message_content("hi", None, None, None);
    assert_eq!(text_at(&c, &["msgtype"]), Some("m.text"));
    assert_eq!(text_at(&c, &["body"]), Some("hi"));
    assert!(c.get("format").is_none());
    assert!(c.get("formatted_body").is_none());
    assert!(c.get("m.relates_to").is_none());
    assert!(c.get("m.new_content").is_none());
}

#[test]
fn html_content_carries_its_format() {
    let c = build_matrix_message_content("hi", Some("<b>hi</b>"), None, None);
    assert_eq!(text_at(&c, &["msgtype"]), Some("m.text"));
    assert_eq!(text_at(&c, &["body"]), Some("hi"));
    assert_eq!(text_at(&c, &["format"]), Some("org.matrix.custom.html"));
    assert_eq!(text_at(&c, &["formatted_body"]), Some("<b>hi</b>"));
}

#[test]
fn reply_content_names_its_target() {
    let c = build_matrix_message_content("yes", None, Some("$target"), None);
    assert_eq!(text_at(&c, &["body"]), Some("yes"));
    assert_eq!(text_at(&c, &["m.relates_to", "m.in_reply_to", "event_id"]), Some("$target"));
    assert!(c.get("m.new_content").is_none());
}

#[test]
fn edit_content_marks_the_body_and_carries_the_new_content() {
    let c = build_matrix_message_content("fixed", Some("<i>fixed</i>"), None, Some("$old"));
    assert_eq!(text_at(&c, &["body"]), Some("* fixed"));
    assert_eq!(text_at(&c, &["m.new_content", "msgtype"]), Some("m.text"));
    assert_eq!(text_at(&c, &["m.new_content", "body"]), Some("fixed"));
    assert_eq!(text_at(&c, &["m.new_content", "format"]), Some("org.matrix.custom.html"));
    assert_eq!(text_at(&c, &["m.new_content", "formatted_body"]), Some("<i>fixed</i>"));
    assert_eq!(text_at(&c, &["m.relates_to", "rel_type"]), Some("m.replace"));
    assert_eq!(text_at(&c, &["m.relates_to", "event_id"]), Some("$old"));
}

#[test]
fn an_edit_outranks_a_reply() {
    let c = build_matrix_message_content("fixed", None, Some("$parent"), Some("$old"));
    assert_eq!(text_at(&c, &["m.relates_to", "rel_type"]), Some("m.replace"));
    assert_eq!(text_at(&c, &["m.relates_to", "event_id"]), Some("$old"));
    assert!(c.get("m.relates_to").unwrap().get("m.in_reply_to").is_none());
}

#[test]
fn reaction_content_annotates_its_target() {
    let c = build_reaction_content("$target", "👍");
    assert_eq!(text_at(&c, &["m.relates_to", "rel_type"]), Some("m.annotation"));
    assert_eq!(text_at(&c, &["m.relates_to", "event_id"]), Some("$target"));
    assert_eq!(text_at(&c, &["m.relates_to", "key"]), Some("👍"));
}

#[test]
fn relation_is_read_back_from_built_content() {
    let reply = message_event(
        "m.room.message",
        None,
        Some(build_matrix_message_content("yes", None, Some("$target"), None)),
    );
    assert_eq!(reply.relates_to_event_id(), Some("$target".to_string()));
    assert_eq!(reply.reaction_key(), None);
    let edit = message_event(
        "m.room.message",
        None,
        Some(build_matrix_message_content("fixed", None, None, Some("$old"))),
    );
    assert_eq!(edit.relates_to_event_id(), Some("$old".to_string()));
    let reaction =
        message_event("m.reaction", None, Some(build_reaction_content("$target", "🎉")));
    assert_eq!(reaction.relates_to_event_id(), Some("$target".to_string()));
    assert_eq!(reaction.reaction_key(), Some("🎉".to_string()));
    let plain = message_event(
        "m.room.message",
        None,
        Some(build_matrix_message_content("hi", None, None, None)),
    );
    assert_eq!(plain.relates_to_event_id(), None);
    let other = message_event(
        "m.room.message",
        None,
        Some(Json::object(vec![Json::member(
            "m.relates_to",
            Json::object(vec![
                Json::member("rel_type", Json::text("m.thread")),
                Json::member("event_id", Json::text("$root")),
            ]),
        )])),
    );
    assert_eq!(other.relates_to_event_id(), None);
    assert_eq!(message_event("m.room.message", None, None).relates_to_event_id(), None);
}

#[test]
fn content_accessors() {
    let e = message_event(
        "m.room.member",
        None,
        Some(Json::object(vec![
            Json::member("membership", Json::text("join")),
            Json::member("displayname", Json::text("Alice")),
            Json::member("msgtype", Json::text("m.text")),
            Json::member("body", Json::text("hello")),
            Json::member("count", Json::Int(3)),
        ])),
    );
    assert_eq!(e.membership(), Some("join"));
    assert_eq!(e.displayname(), Some("Alice"));
    assert_eq!(e.msgtype(), Some("m.text"));
    assert_eq!(e.body(), Some("hello"));
    assert_eq!(e.content_as_str("count"), None);
    assert_eq!(e.content_as_string("body"), Some("hello".to_string()));
    assert_eq!(e.content_as_str("absent"), None);
    assert!(e.is_member());
    assert!(!e.is_message());
    assert!(!e.is_reaction());
    assert!(!e.is_redaction());
    assert!(message_event("m.room.message", None, None).is_message());
    assert!(message_event("m.reaction", None, None).is_reaction());
    assert!(message_event("m.room.redaction", None, None).is_redaction());
    assert_eq!(message_event("m.room.message", None, None).body(), None);
}

#[test]
fn raw_events_are_read_field_by_field() {
    let raw = Json::object(vec![
        Json::member("event_id", Json::text("$abc")),
        Json::member("type", Json::text("m.room.message")),
        Json::member("room_id", Json::text("!r:h")),
        Json::member("sender", Json::text("@alice:h")),
        Json::member("state_key", Json::text("")),
        Json::member("content", Json::object(vec![Json::member("body", Json::text("hi"))])),
        Json::member("origin_server_ts", Json::Int(1_700_000_000_000)),
        Json::member("transaction_id", Json::text("t1")),
    ]);
    let e = event_from_json(&raw);
    assert_eq!(e.event_id.as_deref(), Some("$abc"));
    assert_eq!(e.event_type, "m.room.message");
    assert_eq!(e.room_id, "!r:h");
    assert_eq!(e.sender, "@alice:h");
    assert_eq!(e.state_key.as_deref(), Some(""));
    assert_eq!(e.body(), Some("hi"));
    assert_eq!(e.timestamp, Some(1_700_000_000_000));
    assert_eq!(e.transaction_id.as_deref(), Some("t1"));
}

#[test]
fn missing_mandatory_fields_become_empty() {
    let e = event_from_json(&Json::object(vec![Json::member("type", Json::Int(5))]));
    assert_eq!(e.event_id, None);
    assert_eq!(e.event_type, "");
    assert_eq!(e.room_id, "");
    assert_eq!(e.sender, "");
    assert_eq!(e.state_key, None);
    assert!(e.content.is_none());
    assert_eq!(e.timestamp, None);
    assert_eq!(e.transaction_id, None);
}

#[test]
fn transaction_events_come_in_array_order() {
    let body = Json::object(vec![Json::member(
        "events",
        Json::array(vec![
            Json::object(vec![Json::member("event_id", Json::text("$1"))]),
            Json::object(vec![Json::member("event_id", Json::text("$2"))]),
            Json::object(vec![Json::member("event_id", Json::text("$3"))]),
        ]),
    )]);
    let ids: Vec<Option<String>> =
        events_of_transaction(&body).into_iter().map(|e| e.event_id).collect();
    assert_eq!(
        ids,
        vec![Some("$1".to_string()), Some("$2".to_string()), Some("$3".to_string())]
    );
    assert!(events_of_transaction(&Json::object(vec![])).is_empty());
    assert!(events_of_transaction(&Json::object(vec![Json::member("events", Json::Int(1))]))
        .is_empty());
}

#[test]
fn ghost_names() {
    assert_eq!(ghost_user_localpart(7), "_zulip_7");
    assert_eq!(ghost_user_id(7, "h"), "@_zulip_7:h");
    assert_eq!(ghost_user_id(-12, "example.org"), "@_zulip_-12:example.org");
    assert!(is_namespaced_user("@_zulip_7:h"));
    assert!(!is_namespaced_user("@alice:h"));
    assert!(!is_namespaced_user("x@_zulip_7:h"));
    assert!(!is_namespaced_user("@zulip_7:h"));
}

#[test]
fn matrix_event_kinds() {
    assert_eq!(event_kind("m.room.message"), Some(MatrixEventKind::RoomMessage));
    assert_eq!(event_kind("m.room.member"), Some(MatrixEventKind::RoomMember));
    assert_eq!(event_kind("m.room.redaction"), Some(MatrixEventKind::RoomRedaction));
    assert_eq!(event_kind("m.reaction"), Some(MatrixEventKind::Reaction));
    assert_eq!(event_kind("m.room.encryption"), Some(MatrixEventKind::RoomEncryption));
    assert_eq!(event_kind("m.room.name"), Some(MatrixEventKind::RoomName));
    assert_eq!(event_kind("m.room.topic"), Some(MatrixEventKind::RoomTopic));
    assert_eq!(event_kind("m.room.avatar"), Some(MatrixEventKind::RoomAvatar));
    assert_eq!(event_kind("m.room.create"), None);
    assert_eq!(event_kind(""), None);
}

#[test]
fn age_limit_boundary() {
    let now = 1_700_000_000_000i64;
    let limit = 900_000i64;
    type P = MatrixEventProcessor<DefaultMatrixEventHandler>;
    let at = |ts: Option<i64>, now: i64, limit: i64| {
        P::check_event_age(&message_event("m.room.message", ts, None), limit, now)
    };
    assert!(at(Some(now - limit), now, limit));
    assert!(!at(Some(now - limit - 1), now, limit));
    assert!(at(Some(now), now, limit));
    assert!(at(None, now, limit));
}

#[test]
fn future_events_are_admitted() {
    let now = 1_700_000_000_000i64;
    type P = MatrixEventProcessor<DefaultMatrixEventHandler>;
    assert!(P::check_event_age(&message_event("m.room.message", Some(now + 1), None), 1, now));
    assert!(P::check_event_age(
        &message_event("m.room.message", Some(i64::MAX), None),
        900_000,
        i64::MIN
    ));
}

#[test]
fn a_limit_of_zero_or_less_admits_everything() {
    type P = MatrixEventProcessor<DefaultMatrixEventHandler>;
    assert!(P::check_event_age(&message_event("m.room.message", Some(0), None), 0, i64::MAX));
    assert!(P::check_event_age(&message_event("m.room.message", Some(0), None), -5, i64::MAX));
    assert!(!P::check_event_age(&message_event("m.room.message", Some(i64::MIN), None), 1, i64::MAX));
}

#[test]
fn routes() {
    let now = 1_700_000_000_000i64;
    let p = MatrixEventProcessor::new(DefaultMatrixEventHandler);
    assert_eq!(p.age_limit_ms(), DEFAULT_AGE_LIMIT_MS);
    assert_eq!(DEFAULT_AGE_LIMIT_MS, 900_000);
    let fresh = message_event("m.room.message", Some(now - 10), None);
    let stale = message_event("m.room.message", Some(now - 900_001), None);
    let odd = message_event("org.example.custom", Some(now), None);
    assert_eq!(p.route(&fresh, now, false), MatrixRoute::Deliver(MatrixEventKind::RoomMessage));
    assert_eq!(p.route(&fresh, now, true), MatrixRoute::AlreadyProcessed);
    assert_eq!(p.route(&stale, now, false), MatrixRoute::TooOld);
    assert_eq!(p.route(&stale, now, true), MatrixRoute::TooOld);
    assert_eq!(p.route(&odd, now, false), MatrixRoute::Ignored);
}

#[test]
fn with_age_limit_caps_the_limit() {
    let p = MatrixEventProcessor::with_age_limit(DefaultMatrixEventHandler, 5);
    assert_eq!(p.age_limit_ms(), 5);
    let p = MatrixEventProcessor::with_age_limit(DefaultMatrixEventHandler, u64::MAX);
    assert_eq!(p.age_limit_ms(), i64::MAX);
    let p = MatrixEventProcessor::with_age_limit(DefaultMatrixEventHandler, 0);
    assert_eq!(p.age_limit_ms(), 0);
}

struct Recorder {
    calls: Rc<RefCell<Vec<String>>>,
    fail_on_reaction: bool,
}

impl Recorder {
    fn note(&self, what: &str, event: &MatrixEvent) -> Result<(), BridgeError> {
        self.calls
            .borrow_mut()
            .push(format!("{}:{}", what, event.event_id.clone().unwrap_or_default()));
        Ok(())
    }
}

impl MatrixEventHandler for Recorder {
    fn handle_room_message(&self, event: &MatrixEvent) -> Result<(), BridgeError> {
        self.note("message", event)
    }
    fn handle_room_member(&self, event: &MatrixEvent) -> Result<(), BridgeError> {
        self.note("member", event)
    }
    fn handle_room_redaction(&self, event: &MatrixEvent) -> Result<(), BridgeError> {
        self.note("redaction", event)
    }
    fn handle_reaction(&self, event: &MatrixEvent) -> Result<(), BridgeError> {
        if self.fail_on_reaction {
            return Err(BridgeError::Matrix("no reactions".to_string()));
        }
        self.note("reaction", event)
    }
    fn handle_room_encryption(&self, event: &MatrixEvent) -> Result<(), BridgeError> {
        self.note("encryption", event)
    }
    fn handle_room_name(&self, event: &MatrixEvent) -> Result<(), BridgeError> {
        self.note("name", event)
    }
    fn handle_room_topic(&self, event: &MatrixEvent) -> Result<(), BridgeError> {
        self.note("topic", event)
    }
    fn handle_room_avatar(&self, event: &MatrixEvent) -> Result<(), BridgeError> {
        self.note("avatar", event)
    }
}

#[test]
fn old_events_reach_no_handler() {
    let now = 1_700_000_000_000i64;
    let calls = Rc::new(RefCell::new(vec![]));
    let p = MatrixEventProcessor::new(Recorder { calls: calls.clone(), fail_on_reaction: false });
    let mut stale = message_event("m.room.message", Some(now - 900_001), None);
    stale.event_id = Some("$stale".to_string());
    assert!(p.process_event_at(&stale, now).is_ok());
    let mut edge = message_event("m.room.message", Some(now - 900_000), None);
    edge.event_id = Some("$edge".to_string());
    assert!(p.process_event_at(&edge, now).is_ok());
    let mut odd = message_event("org.example.custom", Some(now), None);
    odd.event_id = Some("$odd".to_string());
    assert!(p.process_event_at(&odd, now).is_ok());
    let mut future = message_event("m.room.name", Some(now + 5_000), None);
    future.event_id = Some("$future".to_string());
    assert!(p.process_event_at(&future, now).is_ok());
    assert_eq!(*calls.borrow(), vec!["message:$edge".to_string(), "name:$future".to_string()]);
}

#[test]
fn each_kind_reaches_its_own_handler() {
    let calls = Rc::new(RefCell::new(vec![]));
    let p = MatrixEventProcessor::new(Recorder { calls: calls.clone(), fail_on_reaction: false });
    let types = [
        "m.room.message",
        "m.room.member",
        "m.room.redaction",
        "m.reaction",
        "m.room.encryption",
        "m.room.name",
        "m.room.topic",
        "m.room.avatar",
    ];
    for t in types {
        assert!(p.process_event(&message_event(t, None, None)).is_ok());
    }
    assert_eq!(
        *calls.borrow(),
        vec![
            "message:$e1", "member:$e1", "redaction:$e1", "reaction:$e1", "encryption:$e1",
            "name:$e1", "topic:$e1", "avatar:$e1"
        ]
    );
}

#[test]
fn a_transaction_is_processed_in_order_and_survives_failures() {
    let mut receiver = BridgeAppserviceHandler::new();
    let body = Json::object(vec![Json::member(
        "events",
        Json::array(vec![
            Json::object(vec![
                Json::member("event_id", Json::text("$1")),
                Json::member("type", Json::text("m.room.message")),
            ]),
            Json::object(vec![
                Json::member("event_id", Json::text("$2")),
                Json::member("type", Json::text("m.reaction")),
            ]),
            Json::object(vec![
                Json::member("event_id", Json::text("$3")),
                Json::member("type", Json::text("m.room.topic")),
            ]),
            Json::object(vec![
                Json::member("event_id", Json::text("$4")),
                Json::member("type", Json::text("m.unknown")),
            ]),
        ]),
    )]);
    let idle = receiver.on_transaction("t0", &body);
    assert_eq!(idle.events, 0);
    assert!(idle.failures.is_empty());
    let calls = Rc::new(RefCell::new(vec![]));
    receiver.set_processor(MatrixEventProcessor::new(Recorder {
        calls: calls.clone(),
        fail_on_reaction: true,
    }));
    let report = receiver.on_transaction("t1", &body);
    assert!(!report.repeated);
    assert!(!report.retry);
    assert_eq!(report.events, 4);
    assert_eq!(report.failures.len(), 1);
    assert_eq!(report.failures[0].0, 1);
    assert_eq!(report.failures[0].1.message(), "Matrix error: no reactions");
    assert_eq!(*calls.borrow(), vec!["message:$1".to_string(), "topic:$3".to_string()]);
}

#[test]
fn a_transaction_delivered_twice_is_taken_once() {
    let body = Json::object(vec![Json::member(
        "events",
        Json::array(vec![Json::object(vec![
            Json::member("event_id", Json::text("$1")),
            Json::member("type", Json::text("m.room.message")),
        ])]),
    )]);
    let calls = Rc::new(RefCell::new(vec![]));
    let mut receiver = BridgeAppserviceHandler::new();
    receiver.set_processor(MatrixEventProcessor::new(Recorder {
        calls: calls.clone(),
        fail_on_reaction: false,
    }));
    let first = receiver.on_transaction("t1", &body);
    assert!(!first.repeated);
    assert_eq!(first.events, 1);
    let second = receiver.on_transaction("t1", &body);
    assert!(second.repeated);
    assert!(!second.retry);
    assert_eq!(second.events, 0);
    assert!(second.failures.is_empty());
    assert_eq!(*calls.borrow(), vec!["message:$1".to_string()]);
    let other = receiver.on_transaction("t2", &body);
    assert!(!other.repeated);
    assert_eq!(other.events, 1);
    assert_eq!(calls.borrow().len(), 2);
}

#[test]
fn a_transaction_before_a_processor_is_set_is_not_noted() {
    let body = Json::object(vec![Json::member(
        "events",
        Json::array(vec![Json::object(vec![
            Json::member("event_id", Json::text("$1")),
            Json::member("type", Json::text("m.room.message")),
        ])]),
    )]);
    let calls = Rc::new(RefCell::new(vec![]));
    let mut receiver = BridgeAppserviceHandler::new();
    let idle = receiver.on_transaction("t1", &body);
    assert!(!idle.repeated);
    assert_eq!(idle.events, 0);
    receiver.set_processor(MatrixEventProcessor::new(Recorder {
        calls: calls.clone(),
        fail_on_reaction: false,
    }));
    let taken = receiver.on_transaction("t1", &body);
    assert!(!taken.repeated);
    assert_eq!(taken.events, 1);
    assert_eq!(*calls.borrow(), vec!["message:$1".to_string()]);
}

struct Unreachable {
    calls: Rc<RefCell<Vec<String>>>,
    reachable: Rc<RefCell<bool>>,
}

impl Unreachable {
    fn answer(&self, what: &str) -> Result<(), BridgeError> {
        self.calls.borrow_mut().push(what.to_string());
        if *self.reachable.borrow() {
            Ok(())
        } else {
            Err(BridgeError::Database("Connection error: pool timed out".to_string()))
        }
    }
}

impl MatrixEventHandler for Unreachable {
    fn handle_room_message(&self, _event: &MatrixEvent) -> Result<(), BridgeError> {
        self.answer("message")
    }
    fn handle_room_member(&self, _event: &MatrixEvent) -> Result<(), BridgeError> {
        self.answer("member")
    }
    fn handle_room_redaction(&self, _event: &MatrixEvent) -> Result<(), BridgeError> {
        self.answer("redaction")
    }
    fn handle_reaction(&self, _event: &MatrixEvent) -> Result<(), BridgeError> {
        self.answer("reaction")
    }
    fn handle_room_encryption(&self, _event: &MatrixEvent) -> Result<(), BridgeError> {
        self.answer("encryption")
    }
    fn handle_room_name(&self, _event: &MatrixEvent) -> Result<(), BridgeError> {
        self.answer("name")
    }
    fn handle_room_topic(&self, _event: &MatrixEvent) -> Result<(), BridgeError> {
        self.answer("topic")
    }
    fn handle_room_avatar(&self, _event: &MatrixEvent) -> Result<(), BridgeError> {
        self.answer("avatar")
    }
}

#[test]
fn a_transaction_that_met_an_unreachable_store_is_taken_again() {
    let body = Json::object(vec![Json::member(
        "events",
        Json::array(vec![
            Json::object(vec![Json::member("type", Json::text("m.room.message"))]),
            Json::object(vec![Json::member("type", Json::text("m.room.name"))]),
        ]),
    )]);
    let calls = Rc::new(RefCell::new(vec![]));
    let reachable = Rc::new(RefCell::new(false));
    let mut receiver = BridgeAppserviceHandler::new();
    receiver.set_processor(MatrixEventProcessor::new(Unreachable {
        calls: calls.clone(),
        reachable: reachable.clone(),
    }));
    let first = receiver.on_transaction("t1", &body);
    assert!(first.retry);
    assert!(!first.repeated);
    assert_eq!(first.events, 2);
    assert_eq!(first.failures.len(), 2);
    assert_eq!(first.failures[0].0, 0);
    assert_eq!(first.failures[1].0, 1);
    assert!(first.failures[0].1.is_store_unreachable());
    *reachable.borrow_mut() = true;
    let second = receiver.on_transaction("t1", &body);
    assert!(!second.repeated);
    assert!(!second.retry);
    assert_eq!(second.events, 2);
    assert!(second.failures.is_empty());
    let third = receiver.on_transaction("t1", &body);
    assert!(third.repeated);
    assert_eq!(*calls.borrow(), vec!["message", "name", "message", "name"]);
}

#[test]
fn an_empty_event_is_read_and_reaches_no_handler() {
    let body = Json::object(vec![Json::member(
        "events",
        Json::array(vec![Json::object(vec![])]),
    )]);
    let events = events_of_transaction(&body);
    assert_eq!(events.len(), 1);
    assert_eq!(events[0].event_id, None);
    assert_eq!(events[0].event_type, "");
    assert_eq!(events[0].room_id, "");
    assert_eq!(events[0].sender, "");
    assert_eq!(events[0].state_key, None);
    assert!(events[0].content.is_none());
    assert_eq!(events[0].timestamp, None);
    assert_eq!(events[0].transaction_id, None);
    let calls = Rc::new(RefCell::new(vec![]));
    let mut receiver = BridgeAppserviceHandler::new();
    receiver.set_processor(MatrixEventProcessor::new(Recorder {
        calls: calls.clone(),
        fail_on_reaction: true,
    }));
    let report = receiver.on_transaction("t1", &body);
    assert_eq!(report.events, 1);
    assert!(report.failures.is_empty());
    assert!(calls.borrow().is_empty());
    let bare = receiver.on_transaction("t2", &Json::object(vec![]));
    assert_eq!(bare.events, 0);
    assert!(bare.failures.is_empty());
}

#[test]
fn the_log_notes_each_transaction_once() {
    let mut log = TransactionLog::new();
    assert!(!log.is_completed("t1"));
    log.complete("t1");
    assert!(log.is_completed("t1"));
    assert!(!log.is_completed("t"));
    assert!(!log.is_completed("t11"));
    log.complete("t1");
    log.complete("t2");
    assert!(log.is_completed("t1"));
    assert!(log.is_completed("t2"));
    assert!(!log.is_completed(""));
}

#[test]
fn default_handler_accepts_everything() {
    let h = DefaultMatrixEventHandler;
    let e = message_event("m.room.message", None, None);
    assert!(h.handle_room_message(&e).is_ok());
    assert!(h.handle_room_member(&e).is_ok());
    assert!(h.handle_room_redaction(&e).is_ok());
    assert!(h.handle_reaction(&e).is_ok());
    assert!(h.handle_room_encryption(&e).is_ok());
    assert!(h.handle_room_name(&e).is_ok());
    assert!(h.handle_room_topic(&e).is_ok());
    assert!(h.handle_room_avatar(&e).is_ok());
}

#[test]
fn appservice_names_and_requests() {
    let a = MatrixAppservice::new(config("http://localhost:8008")).unwrap();
    assert_eq!(a.bot_user_id(), "@zulipbridge:h");
    assert_eq!(a.ghost_user_id(7), "@_zulip_7:h");
    assert!(a.is_namespaced_user("@_zulip_7:h"));
    assert_eq!(a.config().bridge.domain, "h");
    let room = a.create_room("general", Some("zulip_general"), None, true);
    assert_eq!(room.visibility, "public");
    assert_eq!(room.room_alias_name.as_deref(), Some("zulip_general"));
    assert_eq!(room.name, "general");
    assert_eq!(room.topic, None);
    assert_eq!(a.create_room("x", None, Some("t"), false).visibility, "private");
    let m = a.send_message("!r:h", "@_zulip_7:h", "hi", None);
    assert_eq!(m.room_id, "!r:h");
    assert_eq!(m.sender, "@_zulip_7:h");
    assert_eq!(m.event_type, "m.room.message");
    assert_eq!(text_at(&m.content, &["body"]), Some("hi"));
    let r = a.send_message_with_reply("!r:h", "@_zulip_7:h", "yes", None, "$t");
    assert_eq!(text_at(&r.content, &["m.relates_to", "m.in_reply_to", "event_id"]), Some("$t"));
    let e = a.send_message_edit("!r:h", "@_zulip_7:h", "new", None, "$t");
    assert_eq!(text_at(&e.content, &["body"]), Some("* new"));
    let x = a.send_reaction("!r:h", "@_zulip_7:h", "$t", "👍");
    assert_eq!(x.event_type, "m.reaction");
    assert_eq!(text_at(&x.content, &["m.relates_to", "key"]), Some("👍"));
    let d = a.redact_event("!r:h", "@_zulip_7:h", "$t", Some("spam"));
    assert_eq!(d.event_id, "$t");
    assert_eq!(d.reason.as_deref(), Some("spam"));
}

#[test]
fn appservice_rejects_a_homeserver_that_is_no_address() {
    match MatrixAppservice::new(config("not an address")) {
        Err(BridgeError::Parse(m)) => assert!(!m.is_empty()),
        _ => panic!("expected a parse error"),
    }
}

#[test]
fn bot_membership_decides_the_join() {
    let a = MatrixAppservice::new(config("http://localhost:8008")).unwrap();
    let state = |m: &str| Json::object(vec![Json::member("membership", Json::text(m))]);
    assert_eq!(a.ensure_bot_joined_room(Some(&state("join"))), JoinDecision::AlreadyJoined);
    assert_eq!(a.ensure_bot_joined_room(Some(&state("invite"))), JoinDecision::AcceptInvite);
    assert_eq!(a.ensure_bot_joined_room(Some(&state("leave"))), JoinDecision::NotInRoom);
    assert_eq!(a.ensure_bot_joined_room(Some(&state("ban"))), JoinDecision::NotInRoom);
    assert_eq!(a.ensure_bot_joined_room(Some(&Json::object(vec![]))), JoinDecision::NotInRoom);
    assert_eq!(a.ensure_bot_joined_room(None), JoinDecision::NotInRoom);
    assert!(JoinDecision::AcceptInvite.joins());
    assert!(!JoinDecision::AlreadyJoined.joins());
    assert!(!JoinDecision::NotInRoom.joins());
}

#[test]
fn the_result_of_the_handler_is_the_result_of_processing() {
    let now = 1_700_000_000_000i64;
    let calls = Rc::new(RefCell::new(vec![]));
    let p = MatrixEventProcessor::new(Recorder { calls: calls.clone(), fail_on_reaction: true });
    let failed = p.process_event_at(&message_event("m.reaction", Some(now), None), now);
    assert_eq!(failed.unwrap_err().message(), "Matrix error: no reactions");
    let failed = p.process_event(&message_event("m.reaction", None, None));
    assert_eq!(failed.unwrap_err().message(), "Matrix error: no reactions");
    assert!(p.process_event_at(&message_event("m.room.message", Some(now), None), now).is_ok());
    let stale = message_event("m.reaction", Some(now - 900_001), None);
    assert!(p.process_event_at(&stale, now).is_ok());
    assert_eq!(*calls.borrow(), vec!["message:$e1".to_string()]);
}
