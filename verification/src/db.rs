//! The mapping store: the rows that tie the identifiers of one side to those
//! of the other, and the tables that hold them.

pub mod error;
pub mod manager;
pub mod models;
pub mod stores;

pub use self::error::DatabaseError;
pub use self::manager::DatabaseManager;
pub use self::stores::{
    EventStore, MessageStore, OrganizationStore, ReactionStore, RoomStore, UserStore,
};
