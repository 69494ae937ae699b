//! The mapping store as a whole: its six tables and the kind of database
//! that they stand for.

use vstd::prelude::*;
use vstd::string::StringExecFns;
use crate::config::DatabaseConfig;
use crate::db::error::DatabaseError;
use crate::db::models::{
    MessageMapping, Organization, ProcessedEvent, ReactionMapping, RoomMapping, UserMapping,
};
use crate::db::stores::{
    EventStore, MessageStore, OrganizationStore, ReactionStore, RoomStore, UserStore,
};

verus! {

/// The kinds of database.
#[derive(Clone, Copy, Debug, PartialEq, Eq, Structural)]
pub enum DbType {
    Postgres,
    Sqlite,
    Mysql,
}

impl DbType {
    /// The kind that a configuration names.
    pub open spec fn of(value: crate::config::DbType) -> DbType {
        match value {
            crate::config::DbType::Postgres => DbType::Postgres,
            crate::config::DbType::Sqlite => DbType::Sqlite,
            crate::config::DbType::Mysql => DbType::Mysql,
        }
    }

    /// Why a kind of database cannot be used, if it cannot: only
    /// PostgreSQL is supported.
    pub open spec fn unsupported(self) -> Option<Seq<char>> {
        match self {
            DbType::Postgres => None,
            DbType::Sqlite => Some("SQLite support not compiled in"@),
            DbType::Mysql => Some("MySQL support not compiled in"@),
        }
    }

    /// Accepts a kind of database that is supported, and says of any other
    /// why it is not.
    pub fn check_supported(self) -> (r: Result<(), DatabaseError>)
        ensures
            match r {
                Ok(_) => self.unsupported() is None,
                Err(e) => e matches DatabaseError::Connection(m) && self.unsupported() == Some(m@),
            },
    {
        match self {
            DbType::Postgres => Ok(()),
            DbType::Sqlite => Err(
                DatabaseError::Connection(String::from_str("SQLite support not compiled in")),
            ),
            DbType::Mysql => Err(
                DatabaseError::Connection(String::from_str("MySQL support not compiled in")),
            ),
        }
    }
}

impl From<crate::config::DbType> for DbType {
    fn from(value: crate::config::DbType) -> (r: Self) {
        match value {
            crate::config::DbType::Postgres => DbType::Postgres,
            crate::config::DbType::Sqlite => DbType::Sqlite,
            crate::config::DbType::Mysql => DbType::Mysql,
        }
    }
}

impl vstd::std_specs::convert::FromSpecImpl<crate::config::DbType> for DbType {
    open spec fn obeys_from_spec() -> bool {
        true
    }

    open spec fn from_spec(value: crate::config::DbType) -> DbType {
        DbType::of(value)
    }
}

/// The six tables of the mapping store, held in memory.
pub struct DatabaseManager {
    pub organization_store: OrganizationStore,
    pub room_store: RoomStore,
    pub user_store: UserStore,
    pub message_store: MessageStore,
    pub event_store: EventStore,
    pub reaction_store: ReactionStore,
    pub db_type: DbType,
}

impl DatabaseManager {
    /// The invariant of the store: that of each of its tables.
    pub open spec fn wf(&self) -> bool {
        &&& self.organization_store.wf()
        &&& self.room_store.wf()
        &&& self.user_store.wf()
        &&& self.message_store.wf()
        &&& self.event_store.wf()
        &&& self.reaction_store.wf()
    }

    /// The kind of database that the store stands for.
    pub open spec fn kind(&self) -> DbType {
        self.db_type
    }

    /// The rows of the organizations.
    pub open spec fn organizations(&self) -> Seq<Organization> {
        self.organization_store.rows()
    }

    /// The rows of the room mappings.
    pub open spec fn rooms(&self) -> Seq<RoomMapping> {
        self.room_store.rows()
    }

    /// The rows of the user mappings.
    pub open spec fn users(&self) -> Seq<UserMapping> {
        self.user_store.rows()
    }

    /// The rows of the message mappings.
    pub open spec fn messages(&self) -> Seq<MessageMapping> {
        self.message_store.rows()
    }

    /// The rows of the processed events.
    pub open spec fn events(&self) -> Seq<ProcessedEvent> {
        self.event_store.rows()
    }

    /// The rows of the reaction mappings.
    pub open spec fn reactions(&self) -> Seq<ReactionMapping> {
        self.reaction_store.rows()
    }

    /// Whether every table is empty.
    pub open spec fn is_empty(&self) -> bool {
        &&& self.organizations().len() == 0
        &&& self.rooms().len() == 0
        &&& self.users().len() == 0
        &&& self.messages().len() == 0
        &&& self.events().len() == 0
        &&& self.reactions().len() == 0
    }

    /// An empty store for the kind of database that `config` names. Fails
    /// where that kind is not supported.
    pub fn new(config: &DatabaseConfig) -> (r: Result<Self, DatabaseError>)
        ensures
            match r {
                Ok(manager) => {
                    &&& DbType::of(config.db_type).unsupported() is None
                    &&& manager.wf()
                    &&& manager.kind() == DbType::of(config.db_type)
                    &&& manager.is_empty()
                },
                Err(e) => e matches DatabaseError::Connection(m) && DbType::of(
                    config.db_type,
                ).unsupported() == Some(m@),
            },
    {
        let db_type = DbType::from(config.db_type);
        match db_type.check_supported() {
            Ok(_) => {},
            Err(e) => {
                return Err(e);
            },
        }
        Ok(
            DatabaseManager {
                organization_store: OrganizationStore::new(),
                room_store: RoomStore::new(),
                user_store: UserStore::new(),
                message_store: MessageStore::new(),
                event_store: EventStore::new(),
                reaction_store: ReactionStore::new(),
                db_type,
            },
        )
    }

    /// The table of organizations.
    pub fn organization_store(&self) -> (r: &OrganizationStore)
        ensures
            *r == self.organization_store,
    {
        &self.organization_store
    }

    /// The table of room mappings.
    pub fn room_store(&self) -> (r: &RoomStore)
        ensures
            *r == self.room_store,
    {
        &self.room_store
    }

    /// The table of user mappings.
    pub fn user_store(&self) -> (r: &UserStore)
        ensures
            *r == self.user_store,
    {
        &self.user_store
    }

    /// The table of message mappings.
    pub fn message_store(&self) -> (r: &MessageStore)
        ensures
            *r == self.message_store,
    {
        &self.message_store
    }

    /// The table of processed events.
    pub fn event_store(&self) -> (r: &EventStore)
        ensures
            *r == self.event_store,
    {
        &self.event_store
    }

    /// The table of reaction mappings.
    pub fn reaction_store(&self) -> (r: &ReactionStore)
        ensures
            *r == self.reaction_store,
    {
        &self.reaction_store
    }

    /// The kind of database that the store stands for.
    pub fn db_type(&self) -> (r: DbType)
        ensures
            r == self.kind(),
    {
        self.db_type
    }

    /// Brings the tables up to date. Tables held in memory need no
    /// migration: nothing changes.
    pub fn migrate(&self) -> (r: Result<(), DatabaseError>)
        ensures
            r is Ok,
    {
        Ok(())
    }

    /// Purges the store: every table is emptied.
    pub fn reset(&mut self)
        ensures
            final(self).wf(),
            final(self).is_empty(),
            final(self).kind() == old(self).kind(),
    {
        self.organization_store = OrganizationStore::new();
        self.room_store = RoomStore::new();
        self.user_store = UserStore::new();
        self.message_store = MessageStore::new();
        self.event_store = EventStore::new();
        self.reaction_store = ReactionStore::new();
    }
}

} // verus!
