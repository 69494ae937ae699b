//! Whether a loaded configuration names everything that the bridge needs.

use vstd::prelude::*;
use vstd::string::StringExecFns;
use crate::config::parser::Config;

verus! {

/// What can be wrong with a configuration.
#[derive(Debug, Clone)]
pub enum ConfigError {
    MissingField(String),
    InvalidValue(String),
    FileNotFound(String),
    ParseError(String),
}

impl ConfigError {
    /// The text that the error carries.
    pub open spec fn detail(self) -> Seq<char> {
        match self {
            ConfigError::MissingField(m) => m@,
            ConfigError::InvalidValue(m) => m@,
            ConfigError::FileNotFound(m) => m@,
            ConfigError::ParseError(m) => m@,
        }
    }

    /// What stands before the detail in the error's message.
    pub open spec fn label(self) -> Seq<char> {
        match self {
            ConfigError::MissingField(_) => "Missing required field: "@,
            ConfigError::InvalidValue(_) => "Invalid configuration value: "@,
            ConfigError::FileNotFound(_) => "Configuration file not found: "@,
            ConfigError::ParseError(_) => "Failed to parse configuration: "@,
        }
    }

    /// The error as one line of text: its label, then its detail.
    pub fn message(&self) -> (r: String)
        ensures
            r@ == self.label() + self.detail(),
    {
        let (label, detail): (&str, &String) = match self {
            ConfigError::MissingField(m) => ("Missing required field: ", m),
            ConfigError::InvalidValue(m) => ("Invalid configuration value: ", m),
            ConfigError::FileNotFound(m) => ("Configuration file not found: ", m),
            ConfigError::ParseError(m) => ("Failed to parse configuration: ", m),
        };
        let mut out = String::from_str(label);
        out.append(detail.as_str());
        out
    }
}

/// The dotted name of the first required setting that is empty, in the order
/// in which the settings are checked.
pub open spec fn first_missing_field(config: &Config) -> Option<Seq<char>> {
    if config.bridge.homeserver_url@.len() == 0 {
        Some("bridge.homeserver_url"@)
    } else if config.bridge.domain@.len() == 0 {
        Some("bridge.domain"@)
    } else if config.database.url@.len() == 0 {
        Some("database.url"@)
    } else if config.registration.appservice_token@.len() == 0 {
        Some("registration.appservice_token"@)
    } else if config.registration.homeserver_token@.len() == 0 {
        Some("registration.homeserver_token"@)
    } else if config.registration.sender_localpart@.len() == 0 {
        Some("registration.sender_localpart"@)
    } else {
        None
    }
}

/// Accepts a configuration in which every required setting is present, and
/// otherwise reports the first missing one by its dotted name.
pub fn validate_config(config: &Config) -> (r: Result<(), ConfigError>)
    ensures
        match r {
            Ok(_) => first_missing_field(config) is None,
            Err(e) => e matches ConfigError::MissingField(name) && first_missing_field(config)
                == Some(name@),
        },
{
    if config.bridge.homeserver_url.as_str().is_empty() {
        return Err(ConfigError::MissingField(String::from_str("bridge.homeserver_url")));
    }
    if config.bridge.domain.as_str().is_empty() {
        return Err(ConfigError::MissingField(String::from_str("bridge.domain")));
    }
    if config.database.url.as_str().is_empty() {
        return Err(ConfigError::MissingField(String::from_str("database.url")));
    }
    if config.registration.appservice_token.as_str().is_empty() {
        return Err(ConfigError::MissingField(String::from_str("registration.appservice_token")));
    }
    if config.registration.homeserver_token.as_str().is_empty() {
        return Err(ConfigError::MissingField(String::from_str("registration.homeserver_token")));
    }
    if config.registration.sender_localpart.as_str().is_empty() {
        return Err(ConfigError::MissingField(String::from_str("registration.sender_localpart")));
    }
    Ok(())
}

} // verus!
