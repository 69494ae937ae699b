//! The configuration of the bridge and its validation.

pub mod parser;
pub mod validator;

pub use self::parser::{
    BridgeConfig, Config, DatabaseConfig, DbType, LimitsConfig, LoggingConfig, LoggingFileConfig,
    OrganizationConfig, RegistrationConfig, RoomConfig, ZulipConfig,
};
pub use self::validator::{validate_config, ConfigError};
