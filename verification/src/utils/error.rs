//! The bridge's error kinds and their messages.

use vstd::prelude::*;
use vstd::string::StringExecFns;
use crate::text::starts_with;

verus! {

/// Everything that can go wrong in the bridge, each kind with its detail text.
#[derive(Debug)]
pub enum BridgeError {
    Config(String),
    Database(String),
    Matrix(String),
    Zulip(String),
    Network(String),
    Parse(String),
    Io(String),
    Json(String),
    Yaml(String),
    Http(String),
    RoomNotFound(String),
    UserNotFound(String),
    InvalidState(String),
    NotImplemented(String),
    Unknown(String),
    Other(String),
}

impl BridgeError {
    /// The detail text that the error carries.
    pub open spec fn detail(self) -> Seq<char> {
        match self {
            BridgeError::Config(m) => m@,
            BridgeError::Database(m) => m@,
            BridgeError::Matrix(m) => m@,
            BridgeError::Zulip(m) => m@,
            BridgeError::Network(m) => m@,
            BridgeError::Parse(m) => m@,
            BridgeError::Io(m) => m@,
            BridgeError::Json(m) => m@,
            BridgeError::Yaml(m) => m@,
            BridgeError::Http(m) => m@,
            BridgeError::RoomNotFound(m) => m@,
            BridgeError::UserNotFound(m) => m@,
            BridgeError::InvalidState(m) => m@,
            BridgeError::NotImplemented(m) => m@,
            BridgeError::Unknown(m) => m@,
            BridgeError::Other(m) => m@,
        }
    }

    /// What stands before the detail in the error's message.
    pub open spec fn label(self) -> Seq<char> {
        match self {
            BridgeError::Config(_) => "Configuration error: "@,
            BridgeError::Database(_) => "Database error: "@,
            BridgeError::Matrix(_) => "Matrix error: "@,
            BridgeError::Zulip(_) => "Zulip error: "@,
            BridgeError::Network(_) => "Network error: "@,
            BridgeError::Parse(_) => "Parse error: "@,
            BridgeError::Io(_) => "IO error: "@,
            BridgeError::Json(_) => "JSON error: "@,
            BridgeError::Yaml(_) => "YAML error: "@,
            BridgeError::Http(_) => "HTTP error: "@,
            BridgeError::RoomNotFound(_) => "Room not found: "@,
            BridgeError::UserNotFound(_) => "User not found: "@,
            BridgeError::InvalidState(_) => "Invalid state: "@,
            BridgeError::NotImplemented(_) => "Not implemented: "@,
            BridgeError::Unknown(_) => "Unknown error: "@,
            BridgeError::Other(_) => Seq::empty(),
        }
    }

    /// Whether the error reports that the mapping store could not be
    /// reached: after such a failure the homeserver is to deliver the
    /// transaction again.
    pub open spec fn store_unreachable(self) -> bool {
        self matches BridgeError::Database(m) && "Connection error: "@.is_prefix_of(m@)
    }

    /// Whether the error reports that the mapping store could not be
    /// reached.
    pub fn is_store_unreachable(&self) -> (r: bool)
        ensures
            r == self.store_unreachable(),
    {
        match self {
            BridgeError::Database(m) => starts_with(m.as_str(), "Connection error: "),
            _ => false,
        }
    }

    /// The error as one line of text: its label, then its detail.
    pub fn message(&self) -> (r: String)
        ensures
            r@ == self.label() + self.detail(),
    {
        let (label, detail): (&str, &String) = match self {
            BridgeError::Config(m) => ("Configuration error: ", m),
            BridgeError::Database(m) => ("Database error: ", m),
            BridgeError::Matrix(m) => ("Matrix error: ", m),
            BridgeError::Zulip(m) => ("Zulip error: ", m),
            BridgeError::Network(m) => ("Network error: ", m),
            BridgeError::Parse(m) => ("Parse error: ", m),
            BridgeError::Io(m) => ("IO error: ", m),
            BridgeError::Json(m) => ("JSON error: ", m),
            BridgeError::Yaml(m) => ("YAML error: ", m),
            BridgeError::Http(m) => ("HTTP error: ", m),
            BridgeError::RoomNotFound(m) => ("Room not found: ", m),
            BridgeError::UserNotFound(m) => ("User not found: ", m),
            BridgeError::InvalidState(m) => ("Invalid state: ", m),
            BridgeError::NotImplemented(m) => ("Not implemented: ", m),
            BridgeError::Unknown(m) => ("Unknown error: ", m),
            BridgeError::Other(m) => {
                proof {
                    reveal_strlit("");
                }
                assert(""@ =~= Seq::<char>::empty());
                ("", m)
            },
        };
        let mut out = String::from_str(label);
        out.append(detail.as_str());
        out
    }
}

} // verus!
