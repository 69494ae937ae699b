use matrix_bridge_zulip::cli::{CliArgs, RunMode};
use matrix_bridge_zulip::config::parser::{
    default_false, default_log_level, default_matrix_event_age_limit, default_max_backfill,
    default_max_connections, default_member_sync, default_presence_interval,
    default_puppet_prefix, default_puppet_separator, default_visibility,
};
use matrix_bridge_zulip::config::{
    validate_config, BridgeConfig, Config, ConfigError, DatabaseConfig, DbType, LimitsConfig,
    LoggingConfig, RegistrationConfig, RoomConfig, ZulipConfig,
};
use matrix_bridge_zulip::db::manager::DbType as StoreKind;
use matrix_bridge_zulip::db::{DatabaseError, DatabaseManager};
use matrix_bridge_zulip::utils::BridgeError;

fn config() -> Config {
    Config {
        bridge: BridgeConfig {
            homeserver_url: "http://localhost:8008".to_string(),
            domain: "h".to_string(),
            bind_address: "127.0.0.1".to_string(),
            port: 28464,
            disable_presence: default_false(),
            presence_interval: default_presence_interval(),
        },
        database: DatabaseConfig {
            db_type: DbType::Postgres,
            url: "postgres://localhost/bridge".to_string(),
            max_connections: default_max_connections(),
        },
        registration: RegistrationConfig {
            bridge_id: "zulipbridge".to_string(),
            sender_localpart: "zulipbridge".to_string(),
            appservice_token: "as".to_string(),
            homeserver_token: "hs".to_string(),
        },
        zulip: ZulipConfig {
            puppet_separator: default_puppet_separator(),
            puppet_prefix: default_puppet_prefix(),
            member_sync: default_member_sync(),
            max_backfill_amount: default_max_backfill(),
        },
        room: RoomConfig { default_visibility: default_visibility(), room_alias_prefix: String::new() },
        limits: LimitsConfig {
            matrix_event_age_limit_ms: default_matrix_event_age_limit(),
            room_count: 0,
        },
        logging: LoggingConfig { level: default_log_level(), file: None },
    }
}

fn missing(result: Result<(), ConfigError>) -> String {
    match result {
        Err(ConfigError::MissingField(name)) => name,
        other => panic!("expected a missing field, got {:?}", other),
    }
}

#[test]
fn defaults_have_stable_values() {
    assert!(!default_false());
    assert_eq!(default_presence_interval(), 5000);
    assert_eq!(default_max_connections(), 10);
    assert_eq!(default_puppet_separator(), "_");
    assert_eq!(default_puppet_prefix(), "zulip_");
    assert_eq!(default_member_sync(), "half");
    assert_eq!(default_max_backfill(), 100);
    assert_eq!(default_visibility(), "private");
    assert_eq!(default_matrix_event_age_limit(), 900_000);
    assert_eq!(default_log_level(), "info");
    let logging = LoggingConfig::default();
    assert_eq!(logging.level, "");
    assert!(logging.file.is_none());
}

#[test]
fn a_complete_configuration_is_accepted() {
    assert!(config().validate().is_ok());
    assert!(validate_config(&config()).is_ok());
}

#[test]
fn missing_domain_is_named() {
    let mut c = config();
    c.bridge.domain = String::new();
    assert_eq!(missing(validate_config(&c)), "bridge.domain");
    assert_eq!(
        validate_config(&c).unwrap_err().message(),
        "Missing required field: bridge.domain"
    );
    match c.validate() {
        Err(e) => assert_eq!(e.message(), "Configuration error: domain is required"),
        Ok(()) => panic!("expected an error"),
    }
}

#[test]
fn the_first_missing_field_is_reported() {
    let mut c = config();
    c.registration.sender_localpart = String::new();
    assert_eq!(missing(validate_config(&c)), "registration.sender_localpart");
    c.registration.homeserver_token = String::new();
    assert_eq!(missing(validate_config(&c)), "registration.homeserver_token");
    c.registration.appservice_token = String::new();
    assert_eq!(missing(validate_config(&c)), "registration.appservice_token");
    assert!(c.validate().is_ok());
    c.database.url = String::new();
    assert_eq!(missing(validate_config(&c)), "database.url");
    assert_eq!(c.validate().unwrap_err().message(), "Configuration error: database url is required");
    c.bridge.domain = String::new();
    assert_eq!(missing(validate_config(&c)), "bridge.domain");
    c.bridge.homeserver_url = String::new();
    assert_eq!(missing(validate_config(&c)), "bridge.homeserver_url");
    assert_eq!(
        c.validate().unwrap_err().message(),
        "Configuration error: homeserver_url is required"
    );
}

#[test]
fn config_error_messages() {
    assert_eq!(ConfigError::MissingField("a.b".into()).message(), "Missing required field: a.b");
    assert_eq!(
        ConfigError::InvalidValue("port".into()).message(),
        "Invalid configuration value: port"
    );
    assert_eq!(
        ConfigError::FileNotFound("c.yaml".into()).message(),
        "Configuration file not found: c.yaml"
    );
    assert_eq!(
        ConfigError::ParseError("line 3".into()).message(),
        "Failed to parse configuration: line 3"
    );
}

#[test]
fn bridge_error_messages() {
    let cases: Vec<(BridgeError, &str)> = vec![
        (BridgeError::Config("x".into()), "Configuration error: x"),
        (BridgeError::Database("x".into()), "Database error: x"),
        (BridgeError::Matrix("x".into()), "Matrix error: x"),
        (BridgeError::Zulip("x".into()), "Zulip error: x"),
        (BridgeError::Network("x".into()), "Network error: x"),
        (BridgeError::Parse("x".into()), "Parse error: x"),
        (BridgeError::Io("x".into()), "IO error: x"),
        (BridgeError::Json("x".into()), "JSON error: x"),
        (BridgeError::Yaml("x".into()), "YAML error: x"),
        (BridgeError::Http("x".into()), "HTTP error: x"),
        (BridgeError::RoomNotFound("x".into()), "Room not found: x"),
        (BridgeError::UserNotFound("x".into()), "User not found: x"),
        (BridgeError::InvalidState("x".into()), "Invalid state: x"),
        (BridgeError::NotImplemented("x".into()), "Not implemented: x"),
        (BridgeError::Unknown("x".into()), "Unknown error: x"),
        (BridgeError::Other("x".into()), "x"),
    ];
    for (error, text) in cases {
        assert_eq!(error.message(), text);
    }
}

#[test]
fn an_unreachable_store_calls_for_a_retry() {
    let unreachable = DatabaseError::Connection("timed out".into());
    assert!(BridgeError::Database(unreachable.message()).is_store_unreachable());
    assert!(!BridgeError::Database(DatabaseError::Query("x".into()).message()).is_store_unreachable());
    assert!(!BridgeError::Network("Connection error: x".into()).is_store_unreachable());
    assert!(!BridgeError::Database("Connection error".into()).is_store_unreachable());
}

#[test]
fn database_error_messages() {
    let cases: Vec<(DatabaseError, &str)> = vec![
        (DatabaseError::Connection("x".into()), "Connection error: x"),
        (DatabaseError::Query("x".into()), "Query error: x"),
        (DatabaseError::Migration("x".into()), "Migration error: x"),
        (DatabaseError::NotFound("x".into()), "Not found: x"),
        (DatabaseError::InvalidData("x".into()), "Invalid data: x"),
        (DatabaseError::Pool("x".into()), "Pool error: x"),
        (DatabaseError::Transaction("x".into()), "Transaction error: x"),
    ];
    for (error, text) in cases {
        assert_eq!(error.message(), text);
    }
}

#[test]
fn only_postgres_is_supported() {
    assert!(StoreKind::Postgres.check_supported().is_ok());
    assert_eq!(
        StoreKind::Sqlite.check_supported().unwrap_err().message(),
        "Connection error: SQLite support not compiled in"
    );
    assert_eq!(
        StoreKind::Mysql.check_supported().unwrap_err().message(),
        "Connection error: MySQL support not compiled in"
    );
    assert_eq!(StoreKind::from(DbType::Postgres), StoreKind::Postgres);
    assert_eq!(StoreKind::from(DbType::Sqlite), StoreKind::Sqlite);
    assert_eq!(StoreKind::from(DbType::Mysql), StoreKind::Mysql);
    let mut c = config();
    let manager = DatabaseManager::new(&c.database).unwrap();
    assert_eq!(manager.db_type(), StoreKind::Postgres);
    assert!(manager.migrate().is_ok());
    assert_eq!(manager.user_store().len(), 0);
    c.database.db_type = DbType::Sqlite;
    assert!(DatabaseManager::new(&c.database).is_err());
    c.database.db_type = DbType::Mysql;
    assert!(DatabaseManager::new(&c.database).is_err());
}

#[test]
fn command_line_defaults_and_modes() {
    let mut args = CliArgs::defaults();
    assert_eq!(args.config, "config.yaml");
    assert_eq!(args.homeserver, "http://localhost:8008");
    assert!(!args.generate && !args.generate_compat && !args.reset && !args.verbose);
    assert!(args.listen_address.is_none() && args.listen_port.is_none() && args.owner.is_none());
    assert_eq!(args.mode(), RunMode::Bridge);
    args.reset = true;
    assert_eq!(args.mode(), RunMode::Reset);
    args.generate_compat = true;
    assert_eq!(args.mode(), RunMode::GenerateCompat);
    args.generate = true;
    assert_eq!(args.mode(), RunMode::Generate);
}
