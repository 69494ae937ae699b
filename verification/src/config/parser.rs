//! The settings of the bridge, section by section, and the value that each
//! optional setting takes when the file leaves it out.

use std::collections::HashMap;
use vstd::prelude::*;
use vstd::string::StringExecFns;
use crate::utils::BridgeError;

verus! {

/// The settings of the bridge.
#[derive(Debug, Clone)]
pub struct Config {
    pub bridge: BridgeConfig,
    pub database: DatabaseConfig,
    pub registration: RegistrationConfig,
    pub zulip: ZulipConfig,
    pub room: RoomConfig,
    pub limits: LimitsConfig,
    pub logging: LoggingConfig,
}

/// Where the homeserver is and where the bridge listens.
#[derive(Debug, Clone)]
pub struct BridgeConfig {
    pub homeserver_url: String,
    pub domain: String,
    pub bind_address: String,
    pub port: u16,
    pub disable_presence: bool,
    pub presence_interval: u64,
}

/// The value of a switch that the file leaves out: off.
pub fn default_false() -> (r: bool)
    ensures
        !r,
{
    false
}

/// The interval between two presence updates, in milliseconds, where the
/// file names none.
pub fn default_presence_interval() -> (r: u64)
    ensures
        r == 5000,
{
    5000
}

/// Which database holds the mapping store, and how to reach it.
#[derive(Debug, Clone)]
pub struct DatabaseConfig {
    pub db_type: DbType,
    pub url: String,
    pub max_connections: u32,
}

/// The size of the connection pool where the file names none.
pub fn default_max_connections() -> (r: u32)
    ensures
        r == 10,
{
    10
}

/// The kinds of database that a configuration can name.
#[derive(Debug, Clone, Copy, PartialEq, Eq, Structural)]
pub enum DbType {
    Postgres,
    Sqlite,
    Mysql,
}

/// What the bridge is registered as with the homeserver.
#[derive(Debug, Clone)]
pub struct RegistrationConfig {
    pub bridge_id: String,
    pub sender_localpart: String,
    pub appservice_token: String,
    pub homeserver_token: String,
}

/// How the users of the team-chat side appear on the federated side.
#[derive(Debug, Clone)]
pub struct ZulipConfig {
    pub puppet_separator: String,
    pub puppet_prefix: String,
    pub member_sync: String,
    pub max_backfill_amount: i32,
}

/// The separator in the name of a puppet where the file names none.
pub fn default_puppet_separator() -> (r: String)
    ensures
        r@ == "_"@,
{
    String::from_str("_")
}

/// The prefix of the name of a puppet where the file names none.
pub fn default_puppet_prefix() -> (r: String)
    ensures
        r@ == "zulip_"@,
{
    String::from_str("zulip_")
}

/// The way members are kept in step where the file names none.
pub fn default_member_sync() -> (r: String)
    ensures
        r@ == "half"@,
{
    String::from_str("half")
}

/// The number of messages that are fetched of a stream's past where the
/// file names none.
pub fn default_max_backfill() -> (r: i32)
    ensures
        r == 100,
{
    100
}

/// How rooms are made.
#[derive(Debug, Clone)]
pub struct RoomConfig {
    pub default_visibility: String,
    pub room_alias_prefix: String,
}

/// The visibility of a new room where the file names none.
pub fn default_visibility() -> (r: String)
    ensures
        r@ == "private"@,
{
    String::from_str("private")
}

/// The limits that the bridge keeps to.
#[derive(Debug, Clone)]
pub struct LimitsConfig {
    pub matrix_event_age_limit_ms: u64,
    pub room_count: i32,
}

/// The age limit for events of the federated side, in milliseconds,
/// where the file names none.
pub fn default_matrix_event_age_limit() -> (r: u64)
    ensures
        r == 900_000,
{
    900_000
}

/// What is logged, and where.
#[derive(Debug, Clone)]
pub struct LoggingConfig {
    pub level: String,
    pub file: Option<LoggingFileConfig>,
}

impl Default for LoggingConfig {
    fn default() -> (r: Self)
        ensures
            r.level@ == Seq::<char>::empty(),
            r.file is None,
    {
        LoggingConfig { level: String::new(), file: None }
    }
}

/// The level of logging where the file names none.
pub fn default_log_level() -> (r: String)
    ensures
        r@ == "info"@,
{
    String::from_str("info")
}

/// The file that is logged to.
#[derive(Debug, Clone)]
pub struct LoggingFileConfig {
    pub path: String,
    pub rotate: bool,
}

impl Config {
    /// The complaint about the first required setting that is empty, in the
    /// order homeserver URL, domain, database URL.
    pub open spec fn missing_setting(&self) -> Option<Seq<char>> {
        if self.bridge.homeserver_url@.len() == 0 {
            Some("homeserver_url is required"@)
        } else if self.bridge.domain@.len() == 0 {
            Some("domain is required"@)
        } else if self.database.url@.len() == 0 {
            Some("database url is required"@)
        } else {
            None
        }
    }

    /// Accepts the settings when the homeserver URL, the domain and the
    /// database URL are all present; otherwise names the first that is not.
    pub fn validate(&self) -> (r: Result<(), BridgeError>)
        ensures
            match r {
                Ok(_) => self.missing_setting() is None,
                Err(e) => e matches BridgeError::Config(m) && self.missing_setting() == Some(m@),
            },
    {
        if self.bridge.homeserver_url.as_str().is_empty() {
            return Err(BridgeError::Config(String::from_str("homeserver_url is required")));
        }
        if self.bridge.domain.as_str().is_empty() {
            return Err(BridgeError::Config(String::from_str("domain is required")));
        }
        if self.database.url.as_str().is_empty() {
            return Err(BridgeError::Config(String::from_str("database url is required")));
        }
        Ok(())
    }
}

/// An organization of the team-chat side and the account that the
/// bridge uses there.
#[derive(Debug, Clone)]
pub struct OrganizationConfig {
    pub name: String,
    pub site: Option<String>,
    pub email: Option<String>,
    pub api_key: Option<String>,
    pub messages: HashMap<String, String>,
    pub max_backfill_amount: i32,
}

} // verus!
