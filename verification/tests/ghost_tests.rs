use matrix_bridge_zulip::db::models::NewUserMapping;
use matrix_bridge_zulip::db::{DatabaseError, UserStore};
use matrix_bridge_zulip::matrix::ghost::{
    user_id_from_localpart, GhostAction, GhostEvent, GhostRequest, GhostUserManager,
    GHOST_CACHE_CAPACITY,
};
use matrix_bridge_zulip::utils::BridgeError;

fn request(id: i64, name: Option<&str>) -> GhostRequest {
    GhostRequest {
        zulip_user_id: id,
        display_name: name.map(|s| s.to_string()),
        avatar_url: None,
        is_bot: false,
    }
}

#[test]
fn asking_again_yields_the_same_ghost_and_one_row() {
    let mut manager = GhostUserManager::new("h");
    let mut store = UserStore::new();
    let first = manager.get_or_create_ghost(&mut store, 7, Some("Alice"), None, false).unwrap();
    assert_eq!(first.zulip_user_id, 7);
    assert_eq!(first.matrix_user_id, "@_zulip_7:h");
    assert_eq!(first.display_name.as_deref(), Some("Alice"));
    assert_eq!(store.len(), 1);
    for _ in 0..5 {
        let again =
            manager.get_or_create_ghost(&mut store, 7, Some("Someone else"), None, true).unwrap();
        assert_eq!(again.matrix_user_id, first.matrix_user_id);
        assert_eq!(again.display_name.as_deref(), Some("Alice"));
    }
    assert_eq!(store.len(), 1);
    manager.clear_cache();
    assert_eq!(manager.cache_size(), 0);
    let cold = manager.get_or_create_ghost(&mut store, 7, None, None, false).unwrap();
    assert_eq!(cold.matrix_user_id, first.matrix_user_id);
    assert_eq!(store.len(), 1);
    assert_eq!(manager.cache_size(), 1);
}

#[test]
fn a_cached_ghost_says_what_its_row_says() {
    let mut manager = GhostUserManager::new("h");
    let mut store = UserStore::new();
    for id in [3, 4, 5] {
        manager.get_or_create_ghost(&mut store, id, Some("n"), Some("mxc://h/a"), false).unwrap();
    }
    manager.clear_cache();
    for id in [5, 3, 4, 3] {
        let ghost = manager.get_or_create_ghost(&mut store, id, None, None, false).unwrap();
        let row = store.get_by_zulip_user(id).unwrap();
        assert_eq!(ghost.matrix_user_id, row.matrix_user_id);
        assert_eq!(ghost.display_name, row.display_name);
        assert_eq!(ghost.avatar_url, row.avatar_url);
    }
    assert_eq!(manager.cache_size(), 3);
}

#[test]
fn a_row_from_an_earlier_run_is_adopted() {
    let mut manager = GhostUserManager::new("h");
    let mut store = UserStore::new();
    store
        .create(NewUserMapping {
            matrix_user_id: "@legacy_7:h".to_string(),
            zulip_user_id: 7,
            zulip_email: None,
            display_name: Some("Old Alice".to_string()),
            avatar_url: None,
            is_bot: false,
        })
        .unwrap();
    let ghost = manager.get_or_create_ghost(&mut store, 7, Some("Alice"), None, false).unwrap();
    assert_eq!(ghost.matrix_user_id, "@legacy_7:h");
    assert_eq!(ghost.display_name.as_deref(), Some("Old Alice"));
    assert_eq!(store.len(), 1);
    assert_eq!(manager.get_matrix_user_id(&store, 7).unwrap(), "@legacy_7:h");
}

#[test]
fn a_taken_identifier_fails_the_provisioning() {
    let mut manager = GhostUserManager::new("h");
    let mut store = UserStore::new();
    store
        .create(NewUserMapping {
            matrix_user_id: "@_zulip_7:h".to_string(),
            zulip_user_id: 8,
            zulip_email: None,
            display_name: None,
            avatar_url: None,
            is_bot: false,
        })
        .unwrap();
    let e = manager.get_or_create_ghost(&mut store, 7, None, None, false).unwrap_err();
    assert!(matches!(e, BridgeError::Database(_)));
    assert_eq!(store.len(), 1);
    assert_eq!(manager.cache_size(), 0);
}

#[test]
fn provisioning_steps() {
    let mut manager = GhostUserManager::new("h");
    let with_name = request(7, Some("Alice"));
    assert!(matches!(
        manager.provision_step(&with_name, GhostEvent::Begin),
        GhostAction::LookUpStore { zulip_user_id: 7 }
    ));
    match manager.provision_step(&with_name, GhostEvent::StoreAnswered(None)) {
        GhostAction::Register { matrix_user_id, localpart, display_name } => {
            assert_eq!(matrix_user_id, "@_zulip_7:h");
            assert_eq!(localpart, "_zulip_7");
            assert_eq!(display_name.as_deref(), Some("Alice"));
        }
        other => panic!("expected a registration, got {:?}", other),
    }
    for succeeded in [true, false] {
        match manager.provision_step(&with_name, GhostEvent::Registered(succeeded)) {
            GhostAction::SetDisplayName { matrix_user_id, display_name } => {
                assert_eq!(matrix_user_id, "@_zulip_7:h");
                assert_eq!(display_name, "Alice");
            }
            other => panic!("expected a display name, got {:?}", other),
        }
        match manager.provision_step(&with_name, GhostEvent::DisplayNameSet(succeeded)) {
            GhostAction::StoreMapping(m) => {
                assert_eq!(m.matrix_user_id, "@_zulip_7:h");
                assert_eq!(m.zulip_user_id, 7);
                assert_eq!(m.display_name.as_deref(), Some("Alice"));
                assert_eq!(m.zulip_email, None);
                assert!(!m.is_bot);
            }
            other => panic!("expected a row to store, got {:?}", other),
        }
    }
    assert!(matches!(
        manager.provision_step(&request(7, None), GhostEvent::Registered(false)),
        GhostAction::StoreMapping(_)
    ));
    assert_eq!(manager.cache_size(), 0);
    match manager.provision_step(&with_name, GhostEvent::MappingStored) {
        GhostAction::Finished(info) => assert_eq!(info.matrix_user_id, "@_zulip_7:h"),
        other => panic!("expected the ghost, got {:?}", other),
    }
    assert_eq!(manager.cache_size(), 1);
    match manager.provision_step(&with_name, GhostEvent::Begin) {
        GhostAction::Finished(info) => assert_eq!(info.display_name.as_deref(), Some("Alice")),
        other => panic!("expected the cached ghost, got {:?}", other),
    }
    for event in [
        GhostEvent::StoreFailed(DatabaseError::Connection("down".into())),
        GhostEvent::MappingFailed(DatabaseError::Connection("down".into())),
    ] {
        match manager.provision_step(&with_name, event) {
            GhostAction::Failed(e) => {
                assert_eq!(e.message(), "Database error: Connection error: down")
            }
            other => panic!("expected a failure, got {:?}", other),
        }
    }
}

#[test]
fn the_cache_drops_the_ghost_used_least_recently() {
    assert_eq!(GHOST_CACHE_CAPACITY, 1000);
    let mut manager = GhostUserManager::new("h");
    for id in 0..1000 {
        manager.provision_step(&request(id, None), GhostEvent::MappingStored);
    }
    assert_eq!(manager.cache_size(), 1000);
    // use the oldest entry, so that the second oldest becomes the one to go
    assert!(matches!(
        manager.provision_step(&request(0, None), GhostEvent::Begin),
        GhostAction::Finished(_)
    ));
    manager.provision_step(&request(1000, None), GhostEvent::MappingStored);
    assert_eq!(manager.cache_size(), 1000);
    assert!(matches!(
        manager.provision_step(&request(1, None), GhostEvent::Begin),
        GhostAction::LookUpStore { zulip_user_id: 1 }
    ));
    assert!(matches!(
        manager.provision_step(&request(0, None), GhostEvent::Begin),
        GhostAction::Finished(_)
    ));
    assert!(matches!(
        manager.provision_step(&request(2, None), GhostEvent::Begin),
        GhostAction::Finished(_)
    ));
    assert!(matches!(
        manager.provision_step(&request(1000, None), GhostEvent::Begin),
        GhostAction::Finished(_)
    ));
}

#[test]
fn the_user_of_a_ghost() {
    let mut manager = GhostUserManager::new("h");
    let mut store = UserStore::new();
    assert_eq!(manager.ghost_user_id(7), "@_zulip_7:h");
    assert!(manager.is_ghost_user("@_zulip_7:h"));
    assert!(!manager.is_ghost_user("@alice:h"));
    assert_eq!(manager.get_zulip_user_id(&store, "@alice:h").unwrap(), None);
    assert_eq!(manager.get_zulip_user_id(&store, "@_zulip_7:h").unwrap(), Some(7));
    assert_eq!(manager.get_zulip_user_id(&store, "@_zulip_-3:other.org:8448").unwrap(), Some(-3));
    assert_eq!(manager.get_zulip_user_id(&store, "@_zulip_7").unwrap(), Some(7));
    assert_eq!(manager.get_zulip_user_id(&store, "@_zulip_bot:h").unwrap(), None);
    assert_eq!(manager.get_zulip_user_id(&store, "@_zulip_:h").unwrap(), None);
    assert_eq!(manager.get_zulip_user_id(&store, "@_zulip_").unwrap(), None);
    store
        .create(NewUserMapping {
            matrix_user_id: "@_zulip_7:h".to_string(),
            zulip_user_id: 70,
            zulip_email: None,
            display_name: None,
            avatar_url: None,
            is_bot: false,
        })
        .unwrap();
    assert_eq!(manager.get_zulip_user_id(&store, "@_zulip_7:h").unwrap(), Some(70));
    assert_eq!(user_id_from_localpart("@_zulip_12:h"), Some(12));
    for id in [0i64, 1, -1, 42, i64::MAX, i64::MIN] {
        assert_eq!(user_id_from_localpart(&manager.ghost_user_id(id)), Some(id));
    }
    assert_eq!(manager.get_matrix_user_id(&store, 9).unwrap(), "@_zulip_9:h");
    assert_eq!(manager.get_matrix_user_id(&store, 70).unwrap(), "@_zulip_7:h");
}

#[test]
fn the_cache_is_asked_before_the_table() {
    let mut manager = GhostUserManager::new("h");
    let store = UserStore::new();
    assert_eq!(manager.cached_user("@_zulip_7:h"), None);
    // a ghost that only the cache knows
    manager.provision_step(&request(70, None), GhostEvent::StoreAnswered(Some(
        matrix_bridge_zulip::db::models::UserMapping {
            id: 1,
            matrix_user_id: "@_zulip_7:h".to_string(),
            zulip_user_id: 70,
            zulip_email: None,
            display_name: None,
            avatar_url: None,
            is_bot: false,
            created_at: 0,
            updated_at: 0,
        },
    )));
    assert_eq!(manager.cached_user("@_zulip_7:h"), Some(70));
    assert_eq!(manager.cached_user("@_zulip_70:h"), None);
    assert_eq!(manager.get_zulip_user_id(&store, "@_zulip_7:h").unwrap(), Some(70));
    assert_eq!(manager.cache_size(), 1);
}

#[test]
fn a_new_profile_reaches_the_row_and_the_cache() {
    let mut manager = GhostUserManager::new("h");
    let mut store = UserStore::new();
    manager.get_or_create_ghost(&mut store, 7, Some("Alice"), Some("mxc://h/a"), true).unwrap();
    assert!(manager.update_ghost_profile(&mut store, 7, Some("Alice B"), None).is_ok());
    let row = store.get_by_zulip_user(7).unwrap();
    assert_eq!(row.display_name.as_deref(), Some("Alice B"));
    assert_eq!(row.avatar_url.as_deref(), Some("mxc://h/a"));
    assert!(!row.is_bot);
    let cached = manager.get_or_create_ghost(&mut store, 7, None, None, false).unwrap();
    assert_eq!(cached.display_name.as_deref(), Some("Alice B"));
    assert_eq!(cached.avatar_url.as_deref(), Some("mxc://h/a"));
    assert!(manager.update_ghost_profile(&mut store, 7, None, Some("mxc://h/b")).is_ok());
    let cached = manager.get_or_create_ghost(&mut store, 7, None, None, false).unwrap();
    assert_eq!(cached.display_name.as_deref(), Some("Alice B"));
    assert_eq!(cached.avatar_url.as_deref(), Some("mxc://h/b"));
    let missing = manager.update_ghost_profile(&mut store, 8, Some("Bob"), None).unwrap_err();
    assert!(matches!(missing, BridgeError::Database(_)));
    assert_eq!(store.len(), 1);
    let changes = GhostUserManager::profile_changes(Some("n"), None, 5);
    assert_eq!(changes.display_name.as_deref(), Some("n"));
    assert_eq!((changes.avatar_url, changes.zulip_email, changes.is_bot, changes.updated_at), (None, None, false, 5));
}

#[test]
fn a_ghost_is_invited_unless_it_is_a_member() {
    let manager = GhostUserManager::new("h");
    let members = vec!["@alice:h".to_string(), "@_zulip_7:h".to_string()];
    assert_eq!(manager.ensure_ghost_in_room(7, &members), None);
    assert_eq!(manager.ensure_ghost_in_room(8, &members), Some("@_zulip_8:h".to_string()));
    assert_eq!(manager.ensure_ghost_in_room(7, &vec![]), Some("@_zulip_7:h".to_string()));
    assert_eq!(manager.remove_ghost_from_room(7), "@_zulip_7:h");
}

#[test]
fn a_ghost_is_refused_only_where_the_table_refuses_it() {
    let mut manager = GhostUserManager::new("h");
    let mut store = UserStore::new();
    // the row of another user holds the identifier that the namespace
    // gives the ghost of user 5
    store
        .create_at(
            NewUserMapping {
                matrix_user_id: "@_zulip_5:h".to_string(),
                zulip_user_id: 99,
                zulip_email: None,
                display_name: None,
                avatar_url: None,
                is_bot: false,
            },
            1,
        )
        .unwrap();
    let refused = manager.get_or_create_ghost(&mut store, 5, Some("Eve"), None, false);
    assert!(matches!(refused, Err(BridgeError::Database(_))));
    assert_eq!(store.len(), 1);
    assert_eq!(manager.cache_size(), 0);
    // the user of that row is served from the table, and then cached
    let served = manager.get_or_create_ghost(&mut store, 99, None, None, false).unwrap();
    assert_eq!(served.matrix_user_id, "@_zulip_5:h");
    assert_eq!(manager.cached_user("@_zulip_5:h"), Some(99));
    // any other user gets a ghost, which the cache then holds
    let fresh = manager.get_or_create_ghost(&mut store, 6, Some("Fay"), None, false).unwrap();
    assert_eq!(fresh.matrix_user_id, "@_zulip_6:h");
    assert_eq!(manager.cached_user("@_zulip_6:h"), Some(6));
    assert_eq!(store.len(), 2);
    assert_eq!(manager.cache_size(), 2);
}

#[test]
fn a_new_profile_reaches_the_cache_entry_of_the_row_that_changed() {
    let mut manager = GhostUserManager::new("h");
    let mut store = UserStore::new();
    store
        .create_at(
            NewUserMapping {
                matrix_user_id: "@_zulip_5:h".to_string(),
                zulip_user_id: 99,
                zulip_email: None,
                display_name: Some("Old".to_string()),
                avatar_url: None,
                is_bot: false,
            },
            1,
        )
        .unwrap();
    let cached = manager.get_or_create_ghost(&mut store, 99, None, None, false).unwrap();
    assert_eq!(cached.display_name.as_deref(), Some("Old"));
    manager.update_ghost_profile(&mut store, 5, Some("New"), None).unwrap();
    let row = store.get_by_zulip_user(99).unwrap();
    assert_eq!(row.display_name.as_deref(), Some("New"));
    let again = manager.get_or_create_ghost(&mut store, 99, None, None, false).unwrap();
    assert_eq!(again.display_name.as_deref(), Some("New"));
    assert_eq!(again.matrix_user_id, row.matrix_user_id);
    assert_eq!(manager.cache_size(), 1);
}
