//! The path of an inbound room event: the age gate, the check against what
//! was already processed, and the choice of handler by event type.

use vstd::prelude::*;
use crate::matrix::MatrixEvent;
use crate::text::str_eq;
use crate::utils::clock::now_millis;
use crate::utils::BridgeError;

verus! {

/// The age limit that a processor has unless it is given another.
pub const DEFAULT_AGE_LIMIT_MS: i64 = 900_000;

/// What reacts to the room events that the bridge understands, one method
/// per event type.
pub trait MatrixEventHandler {
    /// Whether `r` is a result that this handler gives for `event` when the
    /// event is handed to its method for `kind`. A handler that says nothing
    /// of its results leaves this as it is: every result is one.
    open spec fn gives(
        &self,
        kind: MatrixEventKind,
        event: MatrixEvent,
        r: Result<(), BridgeError>,
    ) -> bool {
        true
    }

    fn handle_room_message(&self, event: &MatrixEvent) -> (r: Result<(), BridgeError>)
        ensures
            self.gives(MatrixEventKind::RoomMessage, *event, r),
    ;

    fn handle_room_member(&self, event: &MatrixEvent) -> (r: Result<(), BridgeError>)
        ensures
            self.gives(MatrixEventKind::RoomMember, *event, r),
    ;

    fn handle_room_redaction(&self, event: &MatrixEvent) -> (r: Result<(), BridgeError>)
        ensures
            self.gives(MatrixEventKind::RoomRedaction, *event, r),
    ;

    fn handle_reaction(&self, event: &MatrixEvent) -> (r: Result<(), BridgeError>)
        ensures
            self.gives(MatrixEventKind::Reaction, *event, r),
    ;

    fn handle_room_encryption(&self, event: &MatrixEvent) -> (r: Result<(), BridgeError>)
        ensures
            self.gives(MatrixEventKind::RoomEncryption, *event, r),
    ;

    fn handle_room_name(&self, event: &MatrixEvent) -> (r: Result<(), BridgeError>)
        ensures
            self.gives(MatrixEventKind::RoomName, *event, r),
    ;

    fn handle_room_topic(&self, event: &MatrixEvent) -> (r: Result<(), BridgeError>)
        ensures
            self.gives(MatrixEventKind::RoomTopic, *event, r),
    ;

    fn handle_room_avatar(&self, event: &MatrixEvent) -> (r: Result<(), BridgeError>)
        ensures
            self.gives(MatrixEventKind::RoomAvatar, *event, r),
    ;
}

/// A handler that accepts every event and does nothing with it.
pub struct DefaultMatrixEventHandler;

impl MatrixEventHandler for DefaultMatrixEventHandler {
    /// This handler gives success, whatever the event.
    open spec fn gives(
        &self,
        kind: MatrixEventKind,
        event: MatrixEvent,
        r: Result<(), BridgeError>,
    ) -> bool {
        r is Ok
    }

    fn handle_room_message(&self, event: &MatrixEvent) -> (r: Result<(), BridgeError>)
        ensures
            r is Ok,
    {
        Ok(())
    }

    fn handle_room_member(&self, event: &MatrixEvent) -> (r: Result<(), BridgeError>)
        ensures
            r is Ok,
    {
        Ok(())
    }

    fn handle_room_redaction(&self, event: &MatrixEvent) -> (r: Result<(), BridgeError>)
        ensures
            r is Ok,
    {
        Ok(())
    }

    fn handle_reaction(&self, event: &MatrixEvent) -> (r: Result<(), BridgeError>)
        ensures
            r is Ok,
    {
        Ok(())
    }

    fn handle_room_encryption(&self, event: &MatrixEvent) -> (r: Result<(), BridgeError>)
        ensures
            r is Ok,
    {
        Ok(())
    }

    fn handle_room_name(&self, event: &MatrixEvent) -> (r: Result<(), BridgeError>)
        ensures
            r is Ok,
    {
        Ok(())
    }

    fn handle_room_topic(&self, event: &MatrixEvent) -> (r: Result<(), BridgeError>)
        ensures
            r is Ok,
    {
        Ok(())
    }

    fn handle_room_avatar(&self, event: &MatrixEvent) -> (r: Result<(), BridgeError>)
        ensures
            r is Ok,
    {
        Ok(())
    }
}

/// The event types that have a handler.
#[derive(Debug, Clone, Copy, PartialEq, Eq, Structural)]
pub enum MatrixEventKind {
    RoomMessage,
    RoomMember,
    RoomRedaction,
    Reaction,
    RoomEncryption,
    RoomName,
    RoomTopic,
    RoomAvatar,
}

/// The kind that an event type names, or `None` for a type without a
/// handler.
pub open spec fn kind_of(event_type: Seq<char>) -> Option<MatrixEventKind> {
    if event_type == "m.room.message"@ {
        Some(MatrixEventKind::RoomMessage)
    } else if event_type == "m.room.member"@ {
        Some(MatrixEventKind::RoomMember)
    } else if event_type == "m.room.redaction"@ {
        Some(MatrixEventKind::RoomRedaction)
    } else if event_type == "m.reaction"@ {
        Some(MatrixEventKind::Reaction)
    } else if event_type == "m.room.encryption"@ {
        Some(MatrixEventKind::RoomEncryption)
    } else if event_type == "m.room.name"@ {
        Some(MatrixEventKind::RoomName)
    } else if event_type == "m.room.topic"@ {
        Some(MatrixEventKind::RoomTopic)
    } else if event_type == "m.room.avatar"@ {
        Some(MatrixEventKind::RoomAvatar)
    } else {
        None
    }
}

/// The kind of an event type.
pub fn event_kind(event_type: &str) -> (r: Option<MatrixEventKind>)
    ensures
        r == kind_of(event_type@),
{
    if str_eq(event_type, "m.room.message") {
        Some(MatrixEventKind::RoomMessage)
    } else if str_eq(event_type, "m.room.member") {
        Some(MatrixEventKind::RoomMember)
    } else if str_eq(event_type, "m.room.redaction") {
        Some(MatrixEventKind::RoomRedaction)
    } else if str_eq(event_type, "m.reaction") {
        Some(MatrixEventKind::Reaction)
    } else if str_eq(event_type, "m.room.encryption") {
        Some(MatrixEventKind::RoomEncryption)
    } else if str_eq(event_type, "m.room.name") {
        Some(MatrixEventKind::RoomName)
    } else if str_eq(event_type, "m.room.topic") {
        Some(MatrixEventKind::RoomTopic)
    } else if str_eq(event_type, "m.room.avatar") {
        Some(MatrixEventKind::RoomAvatar)
    } else {
        None
    }
}

/// Whether an event stamped `timestamp` passes the age gate at time `now`.
/// A limit of zero or less admits every event; an event without a
/// timestamp passes; so does one from the future. Otherwise the event
/// passes when it is no older than the limit.
pub open spec fn age_admits(timestamp: Option<i64>, now: i64, age_limit_ms: i64) -> bool {
    age_limit_ms <= 0 || match timestamp {
        None => true,
        Some(ts) => now - ts <= age_limit_ms,
    }
}

/// What becomes of an inbound event.
#[derive(Debug, Clone, Copy, PartialEq, Eq, Structural)]
pub enum MatrixRoute {
    /// Older than the age limit: dropped, and not recorded as processed.
    TooOld,
    /// Recorded as processed before: nothing more is done.
    AlreadyProcessed,
    /// Of a type without a handler.
    Ignored,
    /// Handed to the handler of its kind.
    Deliver(MatrixEventKind),
}

/// The route of an event of type `event_type` stamped `timestamp`, seen at
/// `now` under the limit `age_limit_ms`, where `already_processed` says
/// whether the event was recorded as processed before.
pub open spec fn route_of(
    event_type: Seq<char>,
    timestamp: Option<i64>,
    now: i64,
    age_limit_ms: i64,
    already_processed: bool,
) -> MatrixRoute {
    if !age_admits(timestamp, now, age_limit_ms) {
        MatrixRoute::TooOld
    } else if already_processed {
        MatrixRoute::AlreadyProcessed
    } else {
        match kind_of(event_type) {
            Some(kind) => MatrixRoute::Deliver(kind),
            None => MatrixRoute::Ignored,
        }
    }
}

/// Applies the age gate and picks the handler for the events of a room.
pub struct MatrixEventProcessor<H: MatrixEventHandler> {
    event_handler: H,
    age_limit_ms: i64,
}

impl<H: MatrixEventHandler> MatrixEventProcessor<H> {
    /// The age limit that this processor applies.
    pub closed spec fn age_limit(&self) -> i64 {
        self.age_limit_ms
    }

    /// The handler that this processor hands events to.
    pub closed spec fn handler(&self) -> H {
        self.event_handler
    }

    /// Whether `r` is a result of processing `event` as seen at `now`: what
    /// the handler gives for the event under its kind where the event is
    /// delivered, and success where it is not.
    pub open spec fn processed(
        &self,
        event: MatrixEvent,
        now: i64,
        r: Result<(), BridgeError>,
    ) -> bool {
        match route_of(event.event_type@, event.timestamp, now, self.age_limit(), false) {
            MatrixRoute::Deliver(kind) => self.handler().gives(kind, event, r),
            _ => r is Ok,
        }
    }

    /// A processor with the default age limit.
    pub fn new(event_handler: H) -> (r: Self)
        ensures
            r.age_limit() == DEFAULT_AGE_LIMIT_MS,
            r.handler() == event_handler,
    {
        MatrixEventProcessor { event_handler, age_limit_ms: DEFAULT_AGE_LIMIT_MS }
    }

    /// A processor with the age limit `age_limit_ms`, held within the range
    /// of a signed instant.
    pub fn with_age_limit(event_handler: H, age_limit_ms: u64) -> (r: Self)
        ensures
            r.age_limit() == if age_limit_ms > i64::MAX {
                i64::MAX
            } else {
                age_limit_ms as i64
            },
            r.handler() == event_handler,
    {
        let limit: i64 = if age_limit_ms > 9_223_372_036_854_775_807u64 {
            9_223_372_036_854_775_807i64
        } else {
            age_limit_ms as i64
        };
        MatrixEventProcessor { event_handler, age_limit_ms: limit }
    }

    /// The age limit that this processor applies.
    pub fn age_limit_ms(&self) -> (r: i64)
        ensures
            r == self.age_limit(),
    {
        self.age_limit_ms
    }

    /// Whether `event` passes the age gate at time `now`.
    pub fn check_event_age(event: &MatrixEvent, age_limit_ms: i64, now: i64) -> (r: bool)
        ensures
            r == age_admits(event.timestamp, now, age_limit_ms),
    {
        if age_limit_ms <= 0 {
            return true;
        }
        match event.timestamp {
            Some(ts) => {
                if ts > now {
                    return true;
                }
                match now.checked_sub(ts) {
                    Some(age) => age <= age_limit_ms,
                    None => false,
                }
            },
            None => true,
        }
    }

    /// The route of `event` at time `now`.
    pub fn route(&self, event: &MatrixEvent, now: i64, already_processed: bool) -> (r: MatrixRoute)
        ensures
            r == route_of(
                event.event_type@,
                event.timestamp,
                now,
                self.age_limit(),
                already_processed,
            ),
    {
        if !Self::check_event_age(event, self.age_limit_ms, now) {
            MatrixRoute::TooOld
        } else if already_processed {
            MatrixRoute::AlreadyProcessed
        } else {
            match event_kind(event.event_type.as_str()) {
                Some(kind) => MatrixRoute::Deliver(kind),
                None => MatrixRoute::Ignored,
            }
        }
    }

    /// Hands `event` to the handler's method for `kind` and returns what
    /// that gives.
    fn deliver(&self, kind: MatrixEventKind, event: &MatrixEvent) -> (r: Result<(), BridgeError>)
        ensures
            self.handler().gives(kind, *event, r),
    {
        match kind {
            MatrixEventKind::RoomMessage => self.event_handler.handle_room_message(event),
            MatrixEventKind::RoomMember => self.event_handler.handle_room_member(event),
            MatrixEventKind::RoomRedaction => self.event_handler.handle_room_redaction(event),
            MatrixEventKind::Reaction => self.event_handler.handle_reaction(event),
            MatrixEventKind::RoomEncryption => self.event_handler.handle_room_encryption(event),
            MatrixEventKind::RoomName => self.event_handler.handle_room_name(event),
            MatrixEventKind::RoomTopic => self.event_handler.handle_room_topic(event),
            MatrixEventKind::RoomAvatar => self.event_handler.handle_room_avatar(event),
        }
    }

    /// Processes `event` as seen at `now`: an event that the age gate drops,
    /// and one of a type without a handler, succeed with nothing done; any
    /// other is handed to the handler of its kind, whose result is returned.
    pub fn process_event_at(&self, event: &MatrixEvent, now: i64) -> (r: Result<(), BridgeError>)
        ensures
            self.processed(*event, now, r),
    {
        match self.route(event, now, false) {
            MatrixRoute::Deliver(kind) => self.deliver(kind, event),
            _ => Ok(()),
        }
    }

    /// Processes `event` as seen now: the result is that of processing the
    /// event at the instant that the clock gave. Whatever the clock says, an
    /// event of a type without a handler succeeds with nothing done, and an
    /// event that the age gate cannot drop, for want of a timestamp or of a
    /// limit, is handed to the handler of its kind.
    pub fn process_event(&self, event: &MatrixEvent) -> (r: Result<(), BridgeError>)
        ensures
            exists|now: i64| #[trigger] self.processed(*event, now, r),
            match kind_of(event.event_type@) {
                Some(kind) => event.timestamp is None || self.age_limit() <= 0
                    ==> self.handler().gives(kind, *event, r),
                None => r is Ok,
            },
    {
        let now = now_millis();
        self.process_event_at(event, now)
    }
}

/// No event older than the limit is delivered: with a positive limit, an
/// event stamped more than the limit before `now` is routed as too old,
/// whatever its type and whether or not it was processed before.
pub proof fn lemma_old_events_are_dropped(
    event_type: Seq<char>,
    ts: i64,
    now: i64,
    age_limit_ms: i64,
    already_processed: bool,
)
    requires
        age_limit_ms > 0,
        ts < now - age_limit_ms,
    ensures
        route_of(event_type, Some(ts), now, age_limit_ms, already_processed) == MatrixRoute::TooOld,
{
}

/// An event stamped in the future passes the age gate, whatever the limit.
pub proof fn lemma_future_events_are_admitted(ts: i64, now: i64, age_limit_ms: i64)
    requires
        ts > now,
    ensures
        age_admits(Some(ts), now, age_limit_ms),
{
}

/// An event exactly as old as the limit passes the age gate; one a
/// millisecond older does not.
pub proof fn lemma_age_boundary(ts: i64, now: i64, age_limit_ms: i64)
    requires
        age_limit_ms > 0,
    ensures
        now - ts == age_limit_ms ==> age_admits(Some(ts), now, age_limit_ms),
        now - ts == age_limit_ms + 1 ==> !age_admits(Some(ts), now, age_limit_ms),
{
}

/// An event that was recorded as processed is never delivered again.
pub proof fn lemma_processed_events_are_not_delivered(
    event_type: Seq<char>,
    timestamp: Option<i64>,
    now: i64,
    age_limit_ms: i64,
)
    ensures
        !(route_of(event_type, timestamp, now, age_limit_ms, true) is Deliver),
{
}

} // verus!
