use matrix_bridge_zulip::db::models::{
    MessageType, NewMessageMapping, NewProcessedEvent, NewReactionMapping, NewRoomMapping,
    NewUserMapping, Organization, OrganizationChangeset, RoomType, UserMappingChangeset,
};
use matrix_bridge_zulip::db::{
    DatabaseError, EventStore, MessageStore, OrganizationStore, ReactionStore, RoomStore,
    UserStore,
};
use matrix_bridge_zulip::utils::clock::{
    retention_cutoff, DEFAULT_RETENTION_DAYS, DEFAULT_SWEEP_INTERVAL_HOURS, MILLIS_PER_DAY,
};

fn new_message(event: &str, room: &str, zulip_id: i64) -> NewMessageMapping {
    NewMessageMapping {
        matrix_event_id: event.to_string(),
        matrix_room_id: room.to_string(),
        zulip_message_id: zulip_id,
        zulip_sender_id: 7,
        message_type: MessageType::Text.to_text(),
    }
}

fn new_user(mxid: &str, zulip_id: i64) -> NewUserMapping {
    NewUserMapping {
        matrix_user_id: mxid.to_string(),
        zulip_user_id: zulip_id,
        zulip_email: None,
        display_name: Some("Alice".to_string()),
        avatar_url: None,
        is_bot: true,
    }
}

fn new_room(room: &str, org: &str, stream: i64, kind: RoomType) -> NewRoomMapping {
    NewRoomMapping {
        matrix_room_id: room.to_string(),
        zulip_stream_id: stream,
        zulip_stream_name: format!("stream{}", stream),
        zulip_topic: None,
        organization_id: org.to_string(),
        room_type: kind.to_text(),
    }
}

fn new_reaction(reaction_event: &str, zulip_reaction: i64, message: i64) -> NewReactionMapping {
    NewReactionMapping {
        matrix_event_id: "$target".to_string(),
        zulip_message_id: message,
        zulip_reaction_id: zulip_reaction,
        emoji: "👍".to_string(),
        matrix_reaction_event_id: reaction_event.to_string(),
    }
}

fn new_event(id: &str, source: &str) -> NewProcessedEvent {
    NewProcessedEvent {
        event_id: id.to_string(),
        event_type: "m.room.message".to_string(),
        source: source.to_string(),
    }
}

fn organization(id: &str) -> Organization {
    Organization {
        id: id.to_string(),
        name: "Example".to_string(),
        site: "https://chat.example.org".to_string(),
        email: "bot@example.org".to_string(),
        api_key: "secret".to_string(),
        connected: false,
        max_backfill_amount: 100,
        created_at: 1,
        updated_at: 1,
    }
}

fn is_query(e: &DatabaseError) -> bool {
    matches!(e, DatabaseError::Query(_))
}

#[test]
fn room_and_message_type_names() {
    for t in [RoomType::Stream, RoomType::Direct, RoomType::Topic] {
        assert_eq!(RoomType::from_str(t.as_str()), Some(t));
        assert_eq!(t.to_text(), t.as_str());
    }
    assert_eq!(RoomType::Stream.as_str(), "stream");
    assert_eq!(RoomType::Direct.as_str(), "direct");
    assert_eq!(RoomType::Topic.as_str(), "topic");
    assert_eq!(RoomType::from_str("Stream"), None);
    assert_eq!(RoomType::from_str(""), None);
    let all = [
        (MessageType::Text, "text"),
        (MessageType::Image, "image"),
        (MessageType::Video, "video"),
        (MessageType::Audio, "audio"),
        (MessageType::File, "file"),
        (MessageType::Emote, "emote"),
    ];
    for (t, name) in all {
        assert_eq!(t.as_str(), name);
        assert_eq!(MessageType::from_str(name), Some(t));
        assert_eq!(t.to_text(), name);
    }
    assert_eq!(MessageType::from_str("sticker"), None);
}

#[test]
fn both_lookups_of_a_message_find_the_same_row() {
    let mut store = MessageStore::new();
    let a = store.create_at(new_message("$a", "!r:h", 42), 100).unwrap();
    let b = store.create_at(new_message("$b", "!r:h", 43), 101).unwrap();
    assert_eq!((a.id, b.id), (1, 2));
    assert_eq!(a.created_at, 100);
    for row in [&a, &b] {
        let by_event = store.get_by_matrix_event(&row.matrix_event_id).unwrap();
        let by_message = store.get_by_zulip_message(row.zulip_message_id).unwrap();
        let by_id = store.get(row.id).unwrap();
        assert_eq!(by_event.id, row.id);
        assert_eq!(by_message.id, row.id);
        assert_eq!(by_id.matrix_event_id, row.matrix_event_id);
        assert_eq!(by_event.zulip_message_id, by_message.zulip_message_id);
    }
    assert!(store.get_by_matrix_event("$c").is_none());
    assert!(store.get_by_zulip_message(44).is_none());
    assert!(store.get(3).is_none());
    assert!(store.exists_by_matrix_event("$a"));
    assert!(!store.exists_by_matrix_event("$c"));
    assert!(store.exists_by_zulip_message(43));
    assert!(!store.exists_by_zulip_message(44));
}

#[test]
fn a_message_has_one_counterpart_at_most() {
    let mut store = MessageStore::new();
    store.create_at(new_message("$a", "!r:h", 42), 100).unwrap();
    assert!(is_query(&store.create_at(new_message("$a", "!r:h", 43), 101).unwrap_err()));
    assert!(is_query(&store.create_at(new_message("$b", "!r:h", 42), 101).unwrap_err()));
    assert_eq!(store.len(), 1);
    let next = store.create_at(new_message("$b", "!r:h", 43), 102).unwrap();
    assert_eq!(next.id, 2);
}

#[test]
fn deleting_a_message_frees_its_keys() {
    let mut store = MessageStore::new();
    store.create(new_message("$a", "!r:h", 42)).unwrap();
    store.create(new_message("$b", "!r:h", 43)).unwrap();
    assert!(store.delete_by_matrix_event("$a").is_ok());
    assert!(store.delete_by_matrix_event("$a").is_ok());
    assert_eq!(store.len(), 1);
    assert!(store.get_by_zulip_message(42).is_none());
    assert!(store.delete(2).is_ok());
    assert_eq!(store.len(), 0);
    assert!(store.delete(99).is_ok());
    assert_eq!(store.create(new_message("$a", "!r:h", 42)).unwrap().id, 3);
}

#[test]
fn messages_of_a_room_come_latest_first() {
    let mut store = MessageStore::new();
    store.create_at(new_message("$1", "!r:h", 1), 10).unwrap();
    store.create_at(new_message("$2", "!other:h", 2), 11).unwrap();
    store.create_at(new_message("$3", "!r:h", 3), 12).unwrap();
    store.create_at(new_message("$4", "!r:h", 4), 13).unwrap();
    let ids = |rows: Vec<matrix_bridge_zulip::db::models::MessageMapping>| {
        rows.into_iter().map(|r| r.matrix_event_id).collect::<Vec<_>>()
    };
    assert_eq!(ids(store.get_by_matrix_room("!r:h", 10).unwrap()), vec!["$4", "$3", "$1"]);
    assert_eq!(ids(store.get_by_matrix_room("!r:h", 2).unwrap()), vec!["$4", "$3"]);
    assert!(store.get_by_matrix_room("!r:h", 0).unwrap().is_empty());
    assert!(store.get_by_matrix_room("!none:h", 5).unwrap().is_empty());
    assert!(is_query(&store.get_by_matrix_room("!r:h", -1).unwrap_err()));
}

#[test]
fn user_rows() {
    let mut store = UserStore::new();
    let a = store.create_at(new_user("@_zulip_7:h", 7), 50).unwrap();
    assert_eq!(a.id, 1);
    assert_eq!((a.created_at, a.updated_at), (50, 50));
    assert!(a.is_bot);
    assert!(is_query(&store.create_at(new_user("@_zulip_7:h", 8), 51).unwrap_err()));
    assert!(is_query(&store.create_at(new_user("@_zulip_8:h", 7), 51).unwrap_err()));
    store.create_at(new_user("@_zulip_8:h", 8), 52).unwrap();
    assert_eq!(store.get_by_zulip_user(8).unwrap().matrix_user_id, "@_zulip_8:h");
    assert_eq!(store.get_by_matrix_user("@_zulip_7:h").unwrap().zulip_user_id, 7);
    assert_eq!(store.get(2).unwrap().zulip_user_id, 8);
    assert!(store.get_by_zulip_user(9).is_none());
    assert!(store.exists_by_matrix_user("@_zulip_8:h"));
    assert!(!store.exists_by_matrix_user("@_zulip_9:h"));
    assert!(store.delete_by_matrix_user("@_zulip_7:h").is_ok());
    assert!(store.get_by_zulip_user(7).is_none());
    assert!(store.delete(2).is_ok());
    assert_eq!(store.len(), 0);
}

#[test]
fn a_change_keeps_what_it_leaves_out() {
    let mut store = UserStore::new();
    let mut user = new_user("@_zulip_7:h", 7);
    user.avatar_url = Some("mxc://h/a".to_string());
    user.zulip_email = Some("alice@example.org".to_string());
    store.create_at(user, 50).unwrap();
    let changes = UserMappingChangeset {
        zulip_email: None,
        display_name: Some("Alice B".to_string()),
        avatar_url: None,
        is_bot: false,
        updated_at: 60,
    };
    let row = store.update(1, changes.clone()).unwrap();
    assert_eq!(row.display_name.as_deref(), Some("Alice B"));
    assert_eq!(row.avatar_url.as_deref(), Some("mxc://h/a"));
    assert_eq!(row.zulip_email.as_deref(), Some("alice@example.org"));
    assert!(!row.is_bot);
    assert_eq!((row.created_at, row.updated_at), (50, 60));
    assert_eq!(store.get(1).unwrap().display_name.as_deref(), Some("Alice B"));
    assert!(is_query(&store.update(2, changes.clone()).unwrap_err()));
    let by_name = store.update_by_matrix_user("@_zulip_7:h", changes.clone()).unwrap();
    assert_eq!(by_name.id, 1);
    assert!(is_query(&store.update_by_matrix_user("@_zulip_8:h", changes).unwrap_err()));
}

#[test]
fn room_rows() {
    let mut store = RoomStore::new();
    store.create_at(new_room("!a:h", "org", 1, RoomType::Stream), 1).unwrap();
    store.create_at(new_room("!b:h", "org", 2, RoomType::Topic), 2).unwrap();
    store.create_at(new_room("!c:h", "other", 1, RoomType::Stream), 3).unwrap();
    assert!(is_query(&store.create_at(new_room("!a:h", "org", 9, RoomType::Stream), 4).unwrap_err()));
    assert!(is_query(&store.create_at(new_room("!z:h", "org", 2, RoomType::Stream), 4).unwrap_err()));
    assert_eq!(store.get_by_matrix_room("!b:h").unwrap().zulip_stream_id, 2);
    assert_eq!(store.get_by_zulip_stream("org", 1).unwrap().matrix_room_id, "!a:h");
    assert_eq!(store.get_by_zulip_stream("other", 1).unwrap().matrix_room_id, "!c:h");
    assert!(store.get_by_zulip_stream("other", 2).is_none());
    assert_eq!(store.get(3).unwrap().organization_id, "other");
    let rooms = |rows: Vec<matrix_bridge_zulip::db::models::RoomMapping>| {
        rows.into_iter().map(|r| r.matrix_room_id).collect::<Vec<_>>()
    };
    assert_eq!(rooms(store.get_by_organization("org")), vec!["!a:h", "!b:h"]);
    assert_eq!(rooms(store.get_by_type("org", RoomType::Topic)), vec!["!b:h"]);
    assert_eq!(rooms(store.get_by_type("org", RoomType::Stream)), vec!["!a:h"]);
    assert!(store.get_by_type("org", RoomType::Direct).is_empty());
    assert!(store.exists_by_matrix_room("!c:h"));
    assert!(store.delete_by_matrix_room("!c:h").is_ok());
    assert!(!store.exists_by_matrix_room("!c:h"));
    assert!(store.delete(1).is_ok());
    assert_eq!(store.len(), 1);
}

#[test]
fn adding_then_removing_a_reaction_leaves_no_row() {
    let mut store = ReactionStore::new();
    let row = store.create_at(new_reaction("$r1", 500, 42), 9).unwrap();
    assert_eq!(store.len(), 1);
    assert!(store.exists_by_matrix_reaction("$r1"));
    assert!(store.exists_by_zulip_reaction(500));
    assert_eq!(store.get_by_matrix_reaction("$r1").unwrap().id, row.id);
    assert_eq!(store.get_by_zulip_reaction(500).unwrap().id, row.id);
    assert!(store.delete_by_matrix_reaction("$r1").is_ok());
    assert_eq!(store.len(), 0);
    assert!(!store.exists_by_matrix_reaction("$r1"));
    assert!(!store.exists_by_zulip_reaction(500));
    store.create_at(new_reaction("$r2", 501, 42), 10).unwrap();
    assert!(store.delete_by_zulip_reaction(501).is_ok());
    assert_eq!(store.len(), 0);
}

#[test]
fn reaction_rows() {
    let mut store = ReactionStore::new();
    store.create_at(new_reaction("$r1", 500, 42), 9).unwrap();
    store.create_at(new_reaction("$r2", 501, 42), 9).unwrap();
    store.create_at(new_reaction("$r3", 502, 43), 9).unwrap();
    assert!(is_query(&store.create_at(new_reaction("$r1", 600, 42), 9).unwrap_err()));
    assert!(is_query(&store.create_at(new_reaction("$r9", 500, 42), 9).unwrap_err()));
    let of = store.get_by_zulip_message(42);
    assert_eq!(of.iter().map(|r| r.zulip_reaction_id).collect::<Vec<_>>(), vec![500, 501]);
    assert!(store.get_by_zulip_message(44).is_empty());
    assert_eq!(store.get(3).unwrap().matrix_reaction_event_id, "$r3");
    assert!(store.delete(3).is_ok());
    assert!(store.get(3).is_none());
}

#[test]
fn processed_events() {
    let mut store = EventStore::new();
    store.create_at(new_event("$a", "matrix"), 1_000).unwrap();
    store.create_at(new_event("42", "zulip"), 2_000).unwrap();
    store.create_at(new_event("$a", "zulip"), 3_000).unwrap();
    assert!(is_query(&store.create_at(new_event("$a", "matrix"), 4_000).unwrap_err()));
    assert!(store.exists_by_event_id("$a"));
    assert!(store.exists_by_event_id("42"));
    assert!(!store.exists_by_event_id("$b"));
    assert_eq!(store.get_by_event_id("$a").unwrap().source, "matrix");
    assert_eq!(store.get(2).unwrap().event_id, "42");
    assert_eq!(store.delete_old_events(2_000).unwrap(), 1);
    assert_eq!(store.len(), 2);
    assert!(store.exists_by_event_id("$a"));
    assert_eq!(store.get_by_event_id("$a").unwrap().source, "zulip");
    assert_eq!(store.delete_old_events(2_000).unwrap(), 0);
    assert_eq!(store.delete_old_events(i64::MAX).unwrap(), 2);
    assert_eq!(store.len(), 0);
}

#[test]
fn the_sweep_removes_what_is_older_than_the_retention() {
    let now = 100 * MILLIS_PER_DAY;
    assert_eq!(MILLIS_PER_DAY, 86_400_000);
    assert_eq!(DEFAULT_RETENTION_DAYS, 7);
    assert_eq!(DEFAULT_SWEEP_INTERVAL_HOURS, 24);
    assert_eq!(retention_cutoff(now, 7), 93 * MILLIS_PER_DAY);
    assert_eq!(retention_cutoff(now, 0), now);
    assert_eq!(retention_cutoff(now, -1), 101 * MILLIS_PER_DAY);
    assert_eq!(retention_cutoff(i64::MIN, i32::MAX), i64::MIN);
    assert_eq!(retention_cutoff(i64::MAX, i32::MIN), i64::MAX);
    let mut store = EventStore::new();
    store.create_at(new_event("old", "matrix"), 93 * MILLIS_PER_DAY - 1).unwrap();
    store.create_at(new_event("edge", "matrix"), 93 * MILLIS_PER_DAY).unwrap();
    store.create_at(new_event("new", "matrix"), now).unwrap();
    assert_eq!(store.cleanup_at(7, now).unwrap(), 1);
    assert!(!store.exists_by_event_id("old"));
    assert!(store.exists_by_event_id("edge"));
    assert!(store.exists_by_event_id("new"));
    let mut live = EventStore::new();
    live.create(new_event("just now", "zulip")).unwrap();
    assert_eq!(live.cleanup(7).unwrap(), 0);
    assert_eq!(live.len(), 1);
}

#[test]
fn organization_rows() {
    let mut store = OrganizationStore::new();
    assert_eq!(store.create(organization("org")).unwrap().id, "org");
    assert!(is_query(&store.create(organization("org")).unwrap_err()));
    store.create(organization("two")).unwrap();
    assert!(store.exists_by_id("org"));
    assert!(!store.exists_by_id("three"));
    assert!(!store.get("org").unwrap().connected);
    assert!(store.set_connected("org", true).is_ok());
    assert!(store.get("org").unwrap().connected);
    assert!(!store.get("two").unwrap().connected);
    assert!(store.set_connected("three", true).is_ok());
    assert_eq!(store.get("org").unwrap().max_backfill_amount, 100);
    let changes = OrganizationChangeset {
        name: "Renamed".to_string(),
        site: "https://zulip.example.org".to_string(),
        email: "bridge@example.org".to_string(),
        api_key: "new".to_string(),
        connected: false,
        max_backfill_amount: 5,
        updated_at: 9,
    };
    let row = store.update("org", changes.clone()).unwrap();
    assert_eq!((row.name.as_str(), row.max_backfill_amount, row.created_at, row.updated_at), ("Renamed", 5, 1, 9));
    assert!(is_query(&store.update("three", changes).unwrap_err()));
    assert_eq!(store.get_all().iter().map(|o| o.id.clone()).collect::<Vec<_>>(), vec!["org", "two"]);
    assert!(store.delete("org").is_ok());
    assert!(store.get("org").is_none());
    assert_eq!(store.len(), 1);
}
