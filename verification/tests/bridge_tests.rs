use matrix_bridge_zulip::bridge::{
    alias_localpart, emoji_code, matrix_store_change, message_mapping, plan_matrix_message,
    processed_event, reaction_mapping, stream_room_mapping, zulip_event_record_id,
    zulip_store_change, BridgeCore, MappingChange, MatrixPlan, Outbound, Skipped, ZulipPlan,
};
use matrix_bridge_zulip::db::error::DatabaseError;
use matrix_bridge_zulip::config::{
    BridgeConfig, Config, DatabaseConfig, DbType, LimitsConfig, LoggingConfig, RegistrationConfig,
    RoomConfig, ZulipConfig,
};
use matrix_bridge_zulip::db::models::{NewRoomMapping, RoomType};
use matrix_bridge_zulip::db::DatabaseManager;
use matrix_bridge_zulip::json::Json;
use matrix_bridge_zulip::matrix::{
    build_matrix_message_content, build_reaction_content, GhostUserManager, MatrixAppservice,
    MatrixEvent,
};
use matrix_bridge_zulip::zulip::{ZulipClient, ZulipEvent, ZulipMessage};

const NOW: i64 = 1_700_000_000_000;

fn config() -> Config {
    Config {
        bridge: BridgeConfig {
            homeserver_url: "http://localhost:8008".to_string(),
            domain: "h".to_string(),
            bind_address: "127.0.0.1".to_string(),
            port: 28464,
            disable_presence: false,
            presence_interval: 5000,
        },
        database: DatabaseConfig {
            db_type: DbType::Postgres,
            url: "postgres://localhost/bridge".to_string(),
            max_connections: 10,
        },
        registration: RegistrationConfig {
            bridge_id: "zulipbridge".to_string(),
            sender_localpart: "zulipbridge".to_string(),
            appservice_token: "as".to_string(),
            homeserver_token: "hs".to_string(),
        },
        zulip: ZulipConfig {
            puppet_separator: "_".to_string(),
            puppet_prefix: "zulip_".to_string(),
            member_sync: "half".to_string(),
            max_backfill_amount: 100,
        },
        room: RoomConfig { default_visibility: "private".to_string(), room_alias_prefix: String::new() },
        limits: LimitsConfig { matrix_event_age_limit_ms: 900_000, room_count: 0 },
        logging: LoggingConfig::default(),
    }
}

/// A core whose room `!r:h` is mapped to the topic `greetings` of stream 9,
/// speaking on the team-chat side as user 1.
fn bridge() -> BridgeCore {
    let mut store = DatabaseManager::new(&config().database).unwrap();
    store
        .room_store
        .create_at(
            NewRoomMapping {
                matrix_room_id: "!r:h".to_string(),
                zulip_stream_id: 9,
                zulip_stream_name: "general".to_string(),
                zulip_topic: Some("greetings".to_string()),
                organization_id: "org".to_string(),
                room_type: RoomType::Stream.to_text(),
            },
            NOW,
        )
        .unwrap();
    BridgeCore::new(store, "org", 900_000, 1)
}

fn matrix_event(id: &str, event_type: &str, sender: &str, content: Json) -> MatrixEvent {
    MatrixEvent {
        event_id: Some(id.to_string()),
        event_type: event_type.to_string(),
        room_id: "!r:h".to_string(),
        sender: sender.to_string(),
        state_key: None,
        content: Some(content),
        timestamp: Some(NOW - 1_000),
        transaction_id: None,
    }
}

fn text_message(id: &str, sender: &str, body: &str) -> MatrixEvent {
    matrix_event(id, "m.room.message", sender, build_matrix_message_content(body, None, None, None))
}

fn zulip_event(event_type: &str, id: i64) -> ZulipEvent {
    ZulipEvent {
        event_type: event_type.to_string(),
        id: Some(id),
        message: None,
        user_id: None,
        stream_id: None,
        stream_name: None,
        message_id: None,
        reaction: None,
        emoji_name: None,
        emoji_code: None,
        op: None,
        extra: vec![],
    }
}

fn zulip_message(id: i64, sender_id: i64, stream_id: i64, content: &str) -> ZulipMessage {
    ZulipMessage {
        id,
        sender_id,
        sender_full_name: "Alice".to_string(),
        sender_email: "alice@example.org".to_string(),
        sender_realm_str: None,
        content: content.to_string(),
        rendered_content: Some(format!("<p>{}</p>", content)),
        content_type: "text/x-markdown".to_string(),
        timestamp: NOW / 1000,
        msg_type: "stream".to_string(),
        stream_id: Some(stream_id),
        subject: Some("greetings".to_string()),
        subject_links: None,
        display_recipient: Some(Json::text("general")),
        reactions: None,
        flags: None,
        last_edit_timestamp: None,
        edit_history: None,
    }
}

fn message_event(event_id: i64, message: ZulipMessage) -> ZulipEvent {
    let mut e = zulip_event("message", event_id);
    e.message = Some(message);
    e
}

fn reaction_event(event_id: i64, op: &str, message_id: i64, emoji: &str, user_id: i64) -> ZulipEvent {
    let mut e = zulip_event("reaction", event_id);
    e.op = Some(op.to_string());
    e.message_id = Some(message_id);
    e.emoji_name = Some(emoji.to_string());
    e.user_id = Some(user_id);
    e
}

fn skipped(plan: &MatrixPlan) -> Option<Skipped> {
    match plan {
        MatrixPlan::Skip(why) => Some(*why),
        _ => None,
    }
}

fn zulip_skipped(plan: &ZulipPlan) -> Option<Skipped> {
    match plan {
        ZulipPlan::Skip(why) => Some(*why),
        _ => None,
    }
}

#[test]
fn a_room_message_is_sent_to_the_mapped_stream() {
    let mut hub = bridge();
    let event = text_message("$m1", "@alice:h", "hi");
    let plan = hub.plan_matrix_event(&event, NOW);
    match &plan {
        MatrixPlan::SendStream { stream_id, topic, content } => {
            assert_eq!(*stream_id, 9);
            assert_eq!(topic, "greetings");
            assert_eq!(content, "hi");
        }
        other => panic!("expected a send, got {:?}", other),
    }
    // the request that the plan turns into
    let client = ZulipClient::new("https://chat.example.org", "bot@example.org", "k").unwrap();
    let request = client.send_stream_message(9, "greetings", "hi");
    let form: Vec<(&str, &str)> =
        request.form.iter().map(|(k, v)| (k.as_str(), v.as_str())).collect();
    assert_eq!(
        form,
        vec![("type", "stream"), ("stream_id", "9"), ("topic", "greetings"), ("content", "hi")]
    );
    assert_eq!(hub.store.message_store.len(), 0);
    hub.complete_matrix_event(&event, &plan, Some(4242), NOW).unwrap();
    assert_eq!(hub.store.message_store.len(), 1);
    let row = hub.store.message_store.get_by_matrix_event("$m1").unwrap();
    assert_eq!(row.zulip_message_id, 4242);
    assert_eq!(row.matrix_room_id, "!r:h");
    assert_eq!(row.zulip_sender_id, 1);
    assert_eq!(hub.store.message_store.get_by_zulip_message(4242).unwrap().id, row.id);
    let recorded = hub.store.event_store.get_by_event_id("$m1").unwrap();
    assert_eq!(recorded.source, "matrix");
    assert_eq!(recorded.event_type, "m.room.message");
}

#[test]
fn a_room_without_a_topic_uses_the_placeholder() {
    let mut store = DatabaseManager::new(&config().database).unwrap();
    store
        .room_store
        .create_at(
            NewRoomMapping {
                matrix_room_id: "!r:h".to_string(),
                zulip_stream_id: 9,
                zulip_stream_name: "general".to_string(),
                zulip_topic: None,
                organization_id: "org".to_string(),
                room_type: RoomType::Stream.to_text(),
            },
            NOW,
        )
        .unwrap();
    let hub = BridgeCore::new(store, "org", 900_000, 1);
    match hub.plan_matrix_event(&text_message("$m1", "@alice:h", "hi"), NOW) {
        MatrixPlan::SendStream { topic, .. } => assert_eq!(topic, "(no topic)"),
        other => panic!("expected a send, got {:?}", other),
    }
}

#[test]
fn the_echo_of_a_sent_message_is_suppressed() {
    let mut hub = bridge();
    let event = text_message("$m1", "@alice:h", "hi");
    let plan = hub.plan_matrix_event(&event, NOW);
    hub.complete_matrix_event(&event, &plan, Some(4242), NOW).unwrap();
    // the team-chat side reports the message that the bridge sent, under
    // any sender
    let echo = message_event(100, zulip_message(4242, 1, 9, "hi"));
    assert_eq!(zulip_skipped(&hub.plan_zulip_event(&echo)), Some(Skipped::Echo));
    let echo = message_event(101, zulip_message(4242, 7, 9, "hi"));
    assert_eq!(zulip_skipped(&hub.plan_zulip_event(&echo)), Some(Skipped::Echo));
    // and a message of the bridge's own account is an echo even before the
    // mapping is stored
    let early = message_event(102, zulip_message(4243, 1, 9, "hi"));
    assert_eq!(zulip_skipped(&hub.plan_zulip_event(&early)), Some(Skipped::Echo));
}

#[test]
fn a_reply_points_at_the_counterpart_of_its_target() {
    let mut hub = bridge();
    let first = text_message("$e", "@alice:h", "question");
    let plan = hub.plan_matrix_event(&first, NOW);
    hub.complete_matrix_event(&first, &plan, Some(555), NOW).unwrap();
    let reply = matrix_event(
        "$r",
        "m.room.message",
        "@bob:h",
        build_matrix_message_content("answer", None, Some("$e"), None),
    );
    match hub.plan_matrix_event(&reply, NOW) {
        MatrixPlan::SendStream { stream_id, content, .. } => {
            assert_eq!(stream_id, 9);
            assert_eq!(content, "[in reply to](#narrow/near/555)\nanswer");
        }
        other => panic!("expected a send, got {:?}", other),
    }
    let orphan = matrix_event(
        "$o",
        "m.room.message",
        "@bob:h",
        build_matrix_message_content("answer", None, Some("$unknown"), None),
    );
    match hub.plan_matrix_event(&orphan, NOW) {
        MatrixPlan::SendStream { content, .. } => assert_eq!(content, "answer"),
        other => panic!("expected a send, got {:?}", other),
    }
}

#[test]
fn an_edit_edits_the_counterpart() {
    let mut hub = bridge();
    let first = text_message("$e", "@alice:h", "tpyo");
    let plan = hub.plan_matrix_event(&first, NOW);
    hub.complete_matrix_event(&first, &plan, Some(555), NOW).unwrap();
    let edit = matrix_event(
        "$x",
        "m.room.message",
        "@alice:h",
        build_matrix_message_content("typo", None, None, Some("$e")),
    );
    let plan = hub.plan_matrix_event(&edit, NOW);
    match &plan {
        MatrixPlan::EditMessage { message_id, content } => {
            assert_eq!(*message_id, 555);
            assert_eq!(content, "typo");
        }
        other => panic!("expected an edit, got {:?}", other),
    }
    hub.complete_matrix_event(&edit, &plan, None, NOW).unwrap();
    assert_eq!(hub.store.message_store.len(), 1);
    assert!(hub.store.event_store.exists_by_event_id("$x"));
    let lost = matrix_event(
        "$y",
        "m.room.message",
        "@alice:h",
        build_matrix_message_content("typo", None, None, Some("$unknown")),
    );
    assert_eq!(skipped(&hub.plan_matrix_event(&lost, NOW)), Some(Skipped::UnknownTarget));
    // the report of the edit on the team-chat side is the echo of it
    let mut echo = zulip_event("update_message", 200);
    echo.message_id = Some(555);
    echo.user_id = Some(1);
    echo.extra = vec![("content".to_string(), Json::text("typo"))];
    assert_eq!(zulip_skipped(&hub.plan_zulip_event(&echo)), Some(Skipped::Echo));
}

#[test]
fn what_is_not_to_be_bridged_is_skipped() {
    let mut hub = bridge();
    let mut old = text_message("$old", "@alice:h", "hi");
    old.timestamp = Some(NOW - 900_001);
    assert_eq!(skipped(&hub.plan_matrix_event(&old, NOW)), Some(Skipped::TooOld));
    let mut edge = text_message("$edge", "@alice:h", "hi");
    edge.timestamp = Some(NOW - 900_000);
    assert!(skipped(&hub.plan_matrix_event(&edge, NOW)).is_none());
    let mut future = text_message("$future", "@alice:h", "hi");
    future.timestamp = Some(NOW + 60_000);
    assert!(skipped(&hub.plan_matrix_event(&future, NOW)).is_none());
    let ghost = text_message("$g", "@_zulip_7:h", "hi");
    assert_eq!(skipped(&hub.plan_matrix_event(&ghost, NOW)), Some(Skipped::FromGhost));
    let mut elsewhere = text_message("$w", "@alice:h", "hi");
    elsewhere.room_id = "!unmapped:h".to_string();
    assert_eq!(skipped(&hub.plan_matrix_event(&elsewhere, NOW)), Some(Skipped::UnknownRoom));
    let member = matrix_event("$s", "m.room.member", "@alice:h", Json::object(vec![]));
    assert_eq!(skipped(&hub.plan_matrix_event(&member, NOW)), Some(Skipped::NotBridged));
    let empty = matrix_event("$n", "m.room.message", "@alice:h", Json::object(vec![]));
    assert_eq!(skipped(&hub.plan_matrix_event(&empty, NOW)), Some(Skipped::Malformed));
    // nothing of this was recorded or mapped
    for (event, plan) in [(&old, MatrixPlan::Skip(Skipped::TooOld))] {
        hub.complete_matrix_event(event, &plan, None, NOW).unwrap();
    }
    assert_eq!(hub.store.event_store.len(), 0);
    assert_eq!(hub.store.message_store.len(), 0);
}

#[test]
fn a_processed_event_is_not_handled_again() {
    let mut hub = bridge();
    let event = text_message("$m1", "@alice:h", "hi");
    let plan = hub.plan_matrix_event(&event, NOW);
    hub.complete_matrix_event(&event, &plan, Some(4242), NOW).unwrap();
    assert_eq!(skipped(&hub.plan_matrix_event(&event, NOW)), Some(Skipped::AlreadyProcessed));
    // a second completion is refused and changes nothing
    assert!(hub.complete_matrix_event(&event, &plan, Some(4243), NOW).is_err());
    assert_eq!(hub.store.message_store.len(), 1);
    assert_eq!(hub.store.event_store.len(), 1);
    // on the other side too
    let incoming = message_event(42, zulip_message(42, 7, 9, "hello"));
    let plan = hub.plan_zulip_event(&incoming);
    hub.complete_zulip_event(&incoming, &plan, Some("$new"), NOW).unwrap();
    assert_eq!(
        zulip_skipped(&hub.plan_zulip_event(&incoming)),
        Some(Skipped::AlreadyProcessed)
    );
    assert!(hub.complete_zulip_event(&incoming, &plan, Some("$other"), NOW).is_err());
    assert_eq!(hub.store.message_store.len(), 2);
}

#[test]
fn a_completion_needs_what_the_call_gave() {
    let mut hub = bridge();
    let event = text_message("$m1", "@alice:h", "hi");
    let plan = hub.plan_matrix_event(&event, NOW);
    assert!(hub.complete_matrix_event(&event, &plan, None, NOW).is_err());
    let mut nameless = text_message("$m2", "@alice:h", "hi");
    nameless.event_id = None;
    let plan = hub.plan_matrix_event(&nameless, NOW);
    assert!(hub.complete_matrix_event(&nameless, &plan, Some(1), NOW).is_err());
    assert_eq!(hub.store.message_store.len(), 0);
    assert_eq!(hub.store.event_store.len(), 0);
}

#[test]
fn a_stream_message_is_sent_by_the_ghost_of_its_sender() {
    let mut hub = bridge();
    let mut ghosts = GhostUserManager::new("h");
    let appservice = MatrixAppservice::new(config()).unwrap();
    let incoming = message_event(42, zulip_message(42, 7, 9, "hello"));
    let plan = hub.plan_zulip_event(&incoming);
    match &plan {
        ZulipPlan::SendMessage { room_id, sender_id, sender_name, content, formatted } => {
            assert_eq!(room_id, "!r:h");
            assert_eq!(*sender_id, 7);
            assert_eq!(sender_name.as_deref(), Some("Alice"));
            assert_eq!(content, "hello");
            assert_eq!(formatted.as_deref(), Some("<p>hello</p>"));
        }
        other => panic!("expected a send, got {:?}", other),
    }
    assert_eq!(plan.sender_id(), Some(7));
    assert_eq!(hub.store.user_store.len(), 0);
    let ghost = ghosts
        .get_or_create_ghost(&mut hub.store.user_store, 7, Some("Alice"), None, false)
        .unwrap();
    assert_eq!(ghost.matrix_user_id, "@_zulip_7:h");
    assert_eq!(hub.store.user_store.len(), 1);
    let members = vec!["@zulipbridge:h".to_string(), "@alice:h".to_string()];
    assert_eq!(ghosts.ensure_ghost_in_room(7, &members), Some("@_zulip_7:h".to_string()));
    match plan.outbound(&appservice, &ghost) {
        Some(Outbound::Event(e)) => {
            assert_eq!(e.room_id, "!r:h");
            assert_eq!(e.sender, "@_zulip_7:h");
            assert_eq!(e.event_type, "m.room.message");
            assert_eq!(e.content.get("body").and_then(|b| b.as_str()), Some("hello"));
            assert_eq!(
                e.content.get("formatted_body").and_then(|b| b.as_str()),
                Some("<p>hello</p>")
            );
        }
        other => panic!("expected an event, got {:?}", other),
    }
    hub.complete_zulip_event(&incoming, &plan, Some("$new"), NOW).unwrap();
    let row = hub.store.message_store.get_by_zulip_message(42).unwrap();
    assert_eq!(row.matrix_event_id, "$new");
    assert_eq!(row.matrix_room_id, "!r:h");
    assert_eq!(row.zulip_sender_id, 7);
    assert_eq!(hub.store.message_store.get_by_matrix_event("$new").unwrap().id, row.id);
    let recorded = hub.store.event_store.get_by_event_id("42").unwrap();
    assert_eq!(recorded.source, "zulip");
    // what the ghost then says in the room is not sent back
    let said = text_message("$new", "@_zulip_7:h", "hello");
    assert_eq!(skipped(&hub.plan_matrix_event(&said, NOW)), Some(Skipped::FromGhost));
}

#[test]
fn a_stream_without_a_room_calls_for_one() {
    let mut hub = bridge();
    let mut message = zulip_message(43, 7, 10, "hello");
    message.display_recipient = Some(Json::text("Design & Art"));
    let incoming = message_event(50, message);
    let plan = hub.plan_zulip_event(&incoming);
    match &plan {
        ZulipPlan::CreateRoom { stream_id, name, alias_localpart } => {
            assert_eq!(*stream_id, 10);
            assert_eq!(name, "Design & Art");
            assert_eq!(alias_localpart, "zulip_design___art");
        }
        other => panic!("expected a room to create, got {:?}", other),
    }
    assert_eq!(plan.sender_id(), None);
    hub.complete_zulip_event(&incoming, &plan, None, NOW).unwrap();
    assert_eq!(hub.store.event_store.len(), 0);
    let room = hub.complete_room(10, "Design & Art", "!new:h", NOW).unwrap();
    assert_eq!(room.organization_id, "org");
    assert_eq!(room.room_type, "stream");
    assert!(hub.complete_room(10, "Design & Art", "!other:h", NOW).is_err());
    assert!(hub.complete_room(11, "x", "!new:h", NOW).is_err());
    match hub.plan_zulip_event(&incoming) {
        ZulipPlan::SendMessage { room_id, .. } => assert_eq!(room_id, "!new:h"),
        other => panic!("expected a send, got {:?}", other),
    }
    let mut unnamed = zulip_message(44, 7, 12, "hello");
    unnamed.display_recipient = None;
    match hub.plan_zulip_event(&message_event(51, unnamed)) {
        ZulipPlan::CreateRoom { name, alias_localpart, .. } => {
            assert_eq!(name, "stream-12");
            assert_eq!(alias_localpart, "zulip_stream_12");
        }
        other => panic!("expected a room to create, got {:?}", other),
    }
    assert_eq!(alias_localpart("Ünïcode Zone 7"), "zulip__n_code_zone_7");
}

#[test]
fn a_reaction_is_bridged_and_its_echo_suppressed() {
    let mut hub = bridge();
    let message = text_message("$eM", "@alice:h", "hi");
    let plan = hub.plan_matrix_event(&message, NOW);
    hub.complete_matrix_event(&message, &plan, Some(77), NOW).unwrap();
    let reaction =
        matrix_event("$react", "m.reaction", "@bob:h", build_reaction_content("$eM", "👍"));
    let plan = hub.plan_matrix_event(&reaction, NOW);
    match &plan {
        MatrixPlan::AddReaction { message_id, emoji } => {
            assert_eq!(*message_id, 77);
            assert_eq!(emoji, "👍");
        }
        other => panic!("expected a reaction, got {:?}", other),
    }
    hub.complete_matrix_event(&reaction, &plan, None, NOW).unwrap();
    assert_eq!(hub.store.reaction_store.len(), 1);
    let row = hub.store.reaction_store.get_by_matrix_reaction("$react").unwrap();
    assert_eq!(row.zulip_message_id, 77);
    assert_eq!(row.matrix_event_id, "$eM");
    assert_eq!(row.emoji, "👍");
    let echo = reaction_event(300, "add", 77, "👍", 1);
    assert_eq!(zulip_skipped(&hub.plan_zulip_event(&echo)), Some(Skipped::Echo));
    // another emoji on the same message is not an echo
    let other = reaction_event(301, "add", 77, "🎉", 7);
    assert!(matches!(hub.plan_zulip_event(&other), ZulipPlan::SendReaction { .. }));
    // a reaction to an event that was never bridged calls for nothing
    let stray =
        matrix_event("$stray", "m.reaction", "@bob:h", build_reaction_content("$none", "👍"));
    assert_eq!(skipped(&hub.plan_matrix_event(&stray, NOW)), Some(Skipped::UnknownTarget));
}

#[test]
fn a_reaction_added_and_removed_leaves_no_row() {
    let mut hub = bridge();
    let message = text_message("$eM", "@alice:h", "hi");
    let plan = hub.plan_matrix_event(&message, NOW);
    hub.complete_matrix_event(&message, &plan, Some(77), NOW).unwrap();
    let reaction =
        matrix_event("$react", "m.reaction", "@bob:h", build_reaction_content("$eM", "👍"));
    let plan = hub.plan_matrix_event(&reaction, NOW);
    hub.complete_matrix_event(&reaction, &plan, None, NOW).unwrap();
    assert_eq!(hub.store.reaction_store.len(), 1);
    let removal = matrix_event(
        "$undo",
        "m.room.redaction",
        "@bob:h",
        Json::object(vec![Json::member("redacts", Json::text("$react"))]),
    );
    let plan = hub.plan_matrix_event(&removal, NOW);
    match &plan {
        MatrixPlan::RemoveReaction { message_id, emoji } => {
            assert_eq!(*message_id, 77);
            assert_eq!(emoji, "👍");
        }
        other => panic!("expected a removal, got {:?}", other),
    }
    hub.complete_matrix_event(&removal, &plan, None, NOW).unwrap();
    assert_eq!(hub.store.reaction_store.len(), 0);
    assert_eq!(hub.store.message_store.len(), 1);
    // the same from the other side
    let incoming = reaction_event(400, "add", 77, "🎉", 7);
    let plan = hub.plan_zulip_event(&incoming);
    match &plan {
        ZulipPlan::SendReaction { room_id, sender_id, target_event_id, key } => {
            assert_eq!(room_id, "!r:h");
            assert_eq!(*sender_id, 7);
            assert_eq!(target_event_id, "$eM");
            assert_eq!(key, "🎉");
        }
        other => panic!("expected a reaction, got {:?}", other),
    }
    hub.complete_zulip_event(&incoming, &plan, Some("$party"), NOW).unwrap();
    assert_eq!(hub.store.reaction_store.len(), 1);
    let outgoing = reaction_event(401, "remove", 77, "🎉", 7);
    let plan = hub.plan_zulip_event(&outgoing);
    match &plan {
        ZulipPlan::RedactEvent { room_id, sender_id, event_id } => {
            assert_eq!(room_id, "!r:h");
            assert_eq!(*sender_id, 7);
            assert_eq!(event_id, "$party");
        }
        other => panic!("expected a redaction, got {:?}", other),
    }
    hub.complete_zulip_event(&outgoing, &plan, None, NOW).unwrap();
    assert_eq!(hub.store.reaction_store.len(), 0);
    assert_eq!(hub.store.message_store.len(), 1);
}

#[test]
fn a_redaction_deletes_the_counterpart() {
    let mut hub = bridge();
    let message = text_message("$eM", "@alice:h", "hi");
    let plan = hub.plan_matrix_event(&message, NOW);
    hub.complete_matrix_event(&message, &plan, Some(77), NOW).unwrap();
    let redaction = matrix_event(
        "$gone",
        "m.room.redaction",
        "@alice:h",
        Json::object(vec![Json::member("redacts", Json::text("$eM"))]),
    );
    let plan = hub.plan_matrix_event(&redaction, NOW);
    assert!(matches!(plan, MatrixPlan::DeleteMessage { message_id: 77 }));
    hub.complete_matrix_event(&redaction, &plan, None, NOW).unwrap();
    assert_eq!(hub.store.message_store.len(), 0);
    let stray = matrix_event(
        "$gone2",
        "m.room.redaction",
        "@alice:h",
        Json::object(vec![Json::member("redacts", Json::text("$eM"))]),
    );
    assert_eq!(skipped(&hub.plan_matrix_event(&stray, NOW)), Some(Skipped::UnknownTarget));
    let empty = matrix_event("$gone3", "m.room.redaction", "@alice:h", Json::object(vec![]));
    assert_eq!(skipped(&hub.plan_matrix_event(&empty, NOW)), Some(Skipped::Malformed));
}

#[test]
fn updates_and_deletions_from_the_team_chat_side() {
    let mut hub = bridge();
    let ghost_info = GhostUserManager::new("h")
        .get_or_create_ghost(&mut hub.store.user_store, 7, None, None, false)
        .unwrap();
    let appservice = MatrixAppservice::new(config()).unwrap();
    let incoming = message_event(42, zulip_message(42, 7, 9, "helo"));
    let plan = hub.plan_zulip_event(&incoming);
    hub.complete_zulip_event(&incoming, &plan, Some("$new"), NOW).unwrap();
    let mut update = zulip_event("update_message", 43);
    update.message_id = Some(42);
    update.user_id = Some(7);
    update.stream_id = Some(9);
    update.extra = vec![
        ("content".to_string(), Json::text("hello")),
        ("rendered_content".to_string(), Json::text("<p>hello</p>")),
    ];
    let plan = hub.plan_zulip_event(&update);
    match &plan {
        ZulipPlan::EditMessage { room_id, sender_id, target_event_id, content, formatted } => {
            assert_eq!(room_id, "!r:h");
            assert_eq!(*sender_id, 7);
            assert_eq!(target_event_id, "$new");
            assert_eq!(content, "hello");
            assert_eq!(formatted.as_deref(), Some("<p>hello</p>"));
        }
        other => panic!("expected an edit, got {:?}", other),
    }
    match plan.outbound(&appservice, &ghost_info) {
        Some(Outbound::Event(e)) => {
            assert_eq!(e.content.get("body").and_then(|b| b.as_str()), Some("* hello"));
            assert_eq!(
                e.content.get("m.relates_to").and_then(|r| r.get("event_id")).and_then(|b| b.as_str()),
                Some("$new")
            );
        }
        other => panic!("expected an event, got {:?}", other),
    }
    hub.complete_zulip_event(&update, &plan, Some("$edit"), NOW).unwrap();
    assert_eq!(hub.store.message_store.len(), 1);
    // an update of a message that was never bridged arrives as a new one
    let mut unknown = zulip_event("update_message", 44);
    unknown.message_id = Some(99);
    unknown.user_id = Some(7);
    unknown.stream_id = Some(9);
    unknown.extra = vec![("content".to_string(), Json::text("late"))];
    let plan = hub.plan_zulip_event(&unknown);
    match &plan {
        ZulipPlan::SendMessage { room_id, sender_id, content, formatted, sender_name } => {
            assert_eq!(room_id, "!r:h");
            assert_eq!(*sender_id, 7);
            assert_eq!(content, "late (edited)");
            assert_eq!(*formatted, None);
            assert_eq!(*sender_name, None);
        }
        other => panic!("expected a send, got {:?}", other),
    }
    hub.complete_zulip_event(&unknown, &plan, Some("$late"), NOW).unwrap();
    assert_eq!(hub.store.message_store.get_by_zulip_message(99).unwrap().matrix_event_id, "$late");
    let mut bare = zulip_event("update_message", 45);
    bare.message_id = Some(98);
    assert_eq!(zulip_skipped(&hub.plan_zulip_event(&bare)), Some(Skipped::Malformed));
    // a deletion redacts the counterpart
    let mut deletion = zulip_event("delete_message", 46);
    deletion.message_id = Some(42);
    let plan = hub.plan_zulip_event(&deletion);
    match plan.outbound(&appservice, &ghost_info) {
        Some(Outbound::Redaction(d)) => {
            assert_eq!(d.room_id, "!r:h");
            assert_eq!(d.sender, "@_zulip_7:h");
            assert_eq!(d.event_id, "$new");
            assert_eq!(d.reason, None);
        }
        other => panic!("expected a redaction, got {:?}", other),
    }
    hub.complete_zulip_event(&deletion, &plan, None, NOW).unwrap();
    assert!(hub.store.message_store.get_by_zulip_message(42).is_none());
    let mut again = zulip_event("delete_message", 47);
    again.message_id = Some(42);
    assert_eq!(zulip_skipped(&hub.plan_zulip_event(&again)), Some(Skipped::UnknownTarget));
    assert_eq!(
        zulip_skipped(&hub.plan_zulip_event(&zulip_event("subscription", 48))),
        Some(Skipped::NotBridged)
    );
    assert_eq!(
        zulip_skipped(&hub.plan_zulip_event(&zulip_event("message", 49))),
        Some(Skipped::Malformed)
    );
}

#[test]
fn plans_from_lookups() {
    let store = bridge().store;
    let room = store.room_store.get_by_matrix_room("!r:h");
    let event = text_message("$m", "@alice:h", "hi");
    assert!(matches!(
        plan_matrix_message(&event, room.as_ref(), None),
        MatrixPlan::SendStream { stream_id: 9, .. }
    ));
    assert_eq!(
        skipped(&plan_matrix_message(&event, None, None)),
        Some(Skipped::UnknownRoom)
    );
}

#[test]
fn emoji_codes_are_hyphenated_code_points() {
    assert_eq!(emoji_code("👍"), "1f44d");
    assert_eq!(emoji_code("❤️"), "2764-fe0f");
    assert_eq!(emoji_code("a"), "61");
    assert_eq!(emoji_code("\u{0}"), "0");
    assert_eq!(emoji_code("\u{10ffff}\u{f}"), "10ffff-f");
    assert_eq!(emoji_code(""), "");
}

#[test]
fn rows_to_store() {
    let m = message_mapping("$e", "!r:h", 42, 7);
    assert_eq!(
        (m.matrix_event_id.as_str(), m.matrix_room_id.as_str(), m.zulip_message_id, m.zulip_sender_id),
        ("$e", "!r:h", 42, 7)
    );
    assert_eq!(m.message_type, "text");
    let r = reaction_mapping("$e", 42, 3, "👍", "$r");
    assert_eq!((r.matrix_event_id.as_str(), r.zulip_message_id, r.zulip_reaction_id), ("$e", 42, 3));
    assert_eq!((r.emoji.as_str(), r.matrix_reaction_event_id.as_str()), ("👍", "$r"));
    let p = processed_event("$e", "m.room.message", "matrix");
    assert_eq!((p.event_id.as_str(), p.event_type.as_str(), p.source.as_str()), ("$e", "m.room.message", "matrix"));
    let s = stream_room_mapping("org", 9, "general", "!r:h");
    assert_eq!((s.organization_id.as_str(), s.zulip_stream_id, s.zulip_stream_name.as_str()), ("org", 9, "general"));
    assert_eq!((s.matrix_room_id.as_str(), s.room_type.as_str(), s.zulip_topic), ("!r:h", "stream", None));
    assert_eq!(zulip_event_record_id(Some(42)).as_deref(), Some("42"));
    assert_eq!(zulip_event_record_id(Some(0)).as_deref(), Some("0"));
    assert_eq!(zulip_event_record_id(Some(-1)), None);
    assert_eq!(zulip_event_record_id(None), None);
}

#[test]
fn a_reset_purges_every_table() {
    let mut hub = bridge();
    let event = text_message("$m1", "@alice:h", "hi");
    let plan = hub.plan_matrix_event(&event, NOW);
    hub.complete_matrix_event(&event, &plan, Some(4242), NOW).unwrap();
    hub.store.reset();
    assert_eq!(hub.store.room_store.len(), 0);
    assert_eq!(hub.store.message_store.len(), 0);
    assert_eq!(hub.store.event_store.len(), 0);
    assert_eq!(hub.store.reaction_store.len(), 0);
    assert_eq!(hub.store.user_store.len(), 0);
    assert_eq!(hub.store.organization_store.len(), 0);
}

#[test]
fn the_store_change_of_a_sent_message() {
    let event = text_message("$eM", "@alice:h", "hi");
    let plan = MatrixPlan::SendStream {
        stream_id: 9,
        topic: "greetings".to_string(),
        content: "hi".to_string(),
    };
    let change = matrix_store_change(&event, &plan, Some(77), 1, 5).unwrap().unwrap();
    match change.mapping {
        MappingChange::StoreMessage(row) => {
            assert_eq!(row.matrix_event_id, "$eM");
            assert_eq!(row.matrix_room_id, "!r:h");
            assert_eq!(row.zulip_message_id, 77);
            assert_eq!(row.zulip_sender_id, 1);
            assert_eq!(row.message_type, "text");
        }
        other => panic!("expected a message to store, got {:?}", other),
    }
    let record = change.record.unwrap();
    assert_eq!(record.event_id, "$eM");
    assert_eq!(record.event_type, "m.room.message");
    assert_eq!(record.source, "matrix");
    // without the id that the other side gave, there is nothing to store
    assert!(matches!(
        matrix_store_change(&event, &plan, None, 1, 5),
        Err(DatabaseError::InvalidData(_))
    ));
    // an event without an id cannot be tied to anything
    let mut nameless = text_message("$eM", "@alice:h", "hi");
    nameless.event_id = None;
    assert!(matches!(
        matrix_store_change(&nameless, &plan, Some(77), 1, 5),
        Err(DatabaseError::InvalidData(_))
    ));
    // a plan to do nothing asks nothing of the store
    let idle = MatrixPlan::Skip(Skipped::NotBridged);
    assert!(matrix_store_change(&nameless, &idle, None, 1, 5).unwrap().is_none());
}

#[test]
fn the_store_changes_of_reactions_and_redactions() {
    let reaction =
        matrix_event("$react", "m.reaction", "@bob:h", build_reaction_content("$eM", "👍"));
    let add = MatrixPlan::AddReaction { message_id: 77, emoji: "👍".to_string() };
    let change = matrix_store_change(&reaction, &add, None, 1, 5).unwrap().unwrap();
    match change.mapping {
        MappingChange::StoreReaction(row) => {
            assert_eq!(row.matrix_event_id, "$eM");
            assert_eq!(row.zulip_message_id, 77);
            assert_eq!(row.zulip_reaction_id, 5);
            assert_eq!(row.emoji, "👍");
            assert_eq!(row.matrix_reaction_event_id, "$react");
        }
        other => panic!("expected a reaction to store, got {:?}", other),
    }
    assert_eq!(change.record.unwrap().event_id, "$react");
    // a reaction plan for an event that is no reaction lacks its target
    let plain = text_message("$plain", "@bob:h", "hi");
    assert!(matrix_store_change(&plain, &add, None, 1, 5).is_err());

    let redaction = matrix_event(
        "$redact",
        "m.room.redaction",
        "@bob:h",
        Json::object(vec![Json::member("redacts", Json::text("$react"))]),
    );
    let remove = MatrixPlan::RemoveReaction { message_id: 77, emoji: "👍".to_string() };
    let change = matrix_store_change(&redaction, &remove, None, 1, 5).unwrap().unwrap();
    assert!(matches!(change.mapping, MappingChange::DropReaction(id) if id == "$react"));
    let delete = MatrixPlan::DeleteMessage { message_id: 77 };
    let change = matrix_store_change(&redaction, &delete, None, 1, 5).unwrap().unwrap();
    assert!(matches!(change.mapping, MappingChange::DropMessage(id) if id == "$react"));
    assert!(matrix_store_change(&plain, &delete, None, 1, 5).is_err());
    let edit = MatrixPlan::EditMessage { message_id: 77, content: "hi!".to_string() };
    let change = matrix_store_change(&plain, &edit, None, 1, 5).unwrap().unwrap();
    assert!(matches!(change.mapping, MappingChange::Keep));
    assert_eq!(change.record.unwrap().event_id, "$plain");
}

#[test]
fn the_store_changes_of_events_of_the_team_chat_side() {
    let event = message_event(200, zulip_message(55, 7, 9, "hello"));
    let send = ZulipPlan::SendMessage {
        room_id: "!r:h".to_string(),
        sender_id: 7,
        sender_name: Some("Alice".to_string()),
        content: "hello".to_string(),
        formatted: None,
    };
    let change = zulip_store_change(&event, &send, Some("$sent"), 3).unwrap().unwrap();
    match change.mapping {
        MappingChange::StoreMessage(row) => {
            assert_eq!(row.matrix_event_id, "$sent");
            assert_eq!(row.matrix_room_id, "!r:h");
            assert_eq!(row.zulip_message_id, 55);
            assert_eq!(row.zulip_sender_id, 7);
        }
        other => panic!("expected a message to store, got {:?}", other),
    }
    let record = change.record.unwrap();
    assert_eq!(record.event_id, "200");
    assert_eq!(record.event_type, "message");
    assert_eq!(record.source, "zulip");
    assert!(matches!(
        zulip_store_change(&event, &send, None, 3),
        Err(DatabaseError::InvalidData(_))
    ));

    let reaction = reaction_event(201, "add", 55, "👍", 7);
    let react = ZulipPlan::SendReaction {
        room_id: "!r:h".to_string(),
        sender_id: 7,
        target_event_id: "$sent".to_string(),
        key: "👍".to_string(),
    };
    let change = zulip_store_change(&reaction, &react, Some("$r"), 3).unwrap().unwrap();
    match change.mapping {
        MappingChange::StoreReaction(row) => {
            assert_eq!(row.matrix_event_id, "$sent");
            assert_eq!(row.zulip_message_id, 55);
            assert_eq!(row.zulip_reaction_id, 3);
            assert_eq!(row.emoji, "👍");
            assert_eq!(row.matrix_reaction_event_id, "$r");
        }
        other => panic!("expected a reaction to store, got {:?}", other),
    }

    let redact = ZulipPlan::RedactEvent {
        room_id: "!r:h".to_string(),
        sender_id: 7,
        event_id: "$sent".to_string(),
    };
    let mut nameless = reaction_event(202, "remove", 55, "👍", 7);
    nameless.id = None;
    let change = zulip_store_change(&nameless, &redact, None, 3).unwrap().unwrap();
    assert!(matches!(change.mapping, MappingChange::DropEither(id) if id == "$sent"));
    assert!(change.record.is_none());

    let idle = ZulipPlan::Skip(Skipped::Echo);
    assert!(zulip_store_change(&event, &idle, None, 3).unwrap().is_none());
}

#[test]
fn a_mapping_change_is_made_or_refused_whole() {
    let mut hub = bridge();
    let first = message_mapping("$a", "!r:h", 10, 1);
    hub.change_mappings(MappingChange::StoreMessage(first), NOW).unwrap();
    assert_eq!(hub.store.message_store.len(), 1);
    // the same event again breaks a uniqueness constraint
    let again = message_mapping("$a", "!r:h", 11, 1);
    assert!(hub.change_mappings(MappingChange::StoreMessage(again), NOW).is_err());
    assert_eq!(hub.store.message_store.len(), 1);
    hub.change_mappings(
        MappingChange::StoreReaction(reaction_mapping("$a", 10, 1, "👍", "$r")),
        NOW,
    )
    .unwrap();
    assert_eq!(hub.store.reaction_store.len(), 1);
    hub.change_mappings(MappingChange::Keep, NOW).unwrap();
    hub.change_mappings(MappingChange::DropReaction("$a".to_string()), NOW).unwrap();
    assert_eq!(hub.store.reaction_store.len(), 1);
    hub.change_mappings(MappingChange::DropEither("$r".to_string()), NOW).unwrap();
    assert_eq!(hub.store.reaction_store.len(), 0);
    assert_eq!(hub.store.message_store.len(), 1);
    hub.change_mappings(MappingChange::DropMessage("$a".to_string()), NOW).unwrap();
    assert_eq!(hub.store.message_store.len(), 0);
    assert_eq!(hub.store.event_store.len(), 0);
}
