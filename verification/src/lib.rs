//! A puppeting bridge between a federated chat protocol, with its rooms and
//! events, and a topic-oriented team chat, with its streams and messages.
//!
//! The library holds the decisions of the bridge: how an event of one side
//! is read, whether it is let through, what it calls for on the other
//! side, and what is remembered of it in the mapping store. Sending and
//! receiving is left to the program around it.

pub mod bridge;
pub mod cli;
pub mod config;
pub mod db;
pub mod json;
pub mod matrix;
pub mod registration;
pub mod text;
pub mod utils;
pub mod zulip;
