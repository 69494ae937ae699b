//! The path of an event pulled from the team-chat side: the check against
//! the ids already processed, the choice of handler by event type, and the
//! bounded record of what was processed.

use std::collections::HashSet;
use vstd::prelude::*;
use crate::text::str_eq;
use crate::utils::BridgeError;
use crate::zulip::types::ZulipEvent;

verus! {

broadcast use vstd::std_specs::hash::group_hash_axioms;

/// How many processed event ids a processor keeps before it forgets them
/// all.
pub const MAX_PROCESSED_EVENTS: usize = 10_000;

/// What reacts to the events that the bridge understands, one method per
/// event type.
pub trait ZulipEventHandler {
    /// Whether `r` is a result that this handler gives for `event` when the
    /// event is handed to its method for `kind`. A handler that says nothing
    /// of its results leaves this as it is: every result is one.
    open spec fn gives(
        &self,
        kind: ZulipEventKind,
        event: ZulipEvent,
        r: Result<(), BridgeError>,
    ) -> bool {
        true
    }

    fn handle_message(&self, event: &ZulipEvent) -> (r: Result<(), BridgeError>)
        ensures
            self.gives(ZulipEventKind::Message, *event, r),
    ;

    fn handle_reaction(&self, event: &ZulipEvent) -> (r: Result<(), BridgeError>)
        ensures
            self.gives(ZulipEventKind::Reaction, *event, r),
    ;

    fn handle_update_message(&self, event: &ZulipEvent) -> (r: Result<(), BridgeError>)
        ensures
            self.gives(ZulipEventKind::UpdateMessage, *event, r),
    ;

    fn handle_delete_message(&self, event: &ZulipEvent) -> (r: Result<(), BridgeError>)
        ensures
            self.gives(ZulipEventKind::DeleteMessage, *event, r),
    ;

    fn handle_subscription(&self, event: &ZulipEvent) -> (r: Result<(), BridgeError>)
        ensures
            self.gives(ZulipEventKind::Subscription, *event, r),
    ;

    fn handle_realm_user(&self, event: &ZulipEvent) -> (r: Result<(), BridgeError>)
        ensures
            self.gives(ZulipEventKind::RealmUser, *event, r),
    ;
}

/// A handler that accepts every event and does nothing with it.
pub struct DefaultZulipEventHandler;

impl ZulipEventHandler for DefaultZulipEventHandler {
    /// This handler gives success, whatever the event.
    open spec fn gives(
        &self,
        kind: ZulipEventKind,
        event: ZulipEvent,
        r: Result<(), BridgeError>,
    ) -> bool {
        r is Ok
    }

    fn handle_message(&self, event: &ZulipEvent) -> (r: Result<(), BridgeError>)
        ensures
            r is Ok,
    {
        Ok(())
    }

    fn handle_reaction(&self, event: &ZulipEvent) -> (r: Result<(), BridgeError>)
        ensures
            r is Ok,
    {
        Ok(())
    }

    fn handle_update_message(&self, event: &ZulipEvent) -> (r: Result<(), BridgeError>)
        ensures
            r is Ok,
    {
        Ok(())
    }

    fn handle_delete_message(&self, event: &ZulipEvent) -> (r: Result<(), BridgeError>)
        ensures
            r is Ok,
    {
        Ok(())
    }

    fn handle_subscription(&self, event: &ZulipEvent) -> (r: Result<(), BridgeError>)
        ensures
            r is Ok,
    {
        Ok(())
    }

    fn handle_realm_user(&self, event: &ZulipEvent) -> (r: Result<(), BridgeError>)
        ensures
            r is Ok,
    {
        Ok(())
    }
}

/// The event types that have a handler.
#[derive(Debug, Clone, Copy, PartialEq, Eq, Structural)]
pub enum ZulipEventKind {
    Message,
    Reaction,
    UpdateMessage,
    DeleteMessage,
    Subscription,
    RealmUser,
}

/// The kind that an event type names, or `None` for a type without a
/// handler.
pub open spec fn zulip_kind_of(event_type: Seq<char>) -> Option<ZulipEventKind> {
    if event_type == "message"@ {
        Some(ZulipEventKind::Message)
    } else if event_type == "reaction"@ {
        Some(ZulipEventKind::Reaction)
    } else if event_type == "update_message"@ {
        Some(ZulipEventKind::UpdateMessage)
    } else if event_type == "delete_message"@ {
        Some(ZulipEventKind::DeleteMessage)
    } else if event_type == "subscription"@ {
        Some(ZulipEventKind::Subscription)
    } else if event_type == "realm_user"@ {
        Some(ZulipEventKind::RealmUser)
    } else {
        None
    }
}

/// The kind of an event type.
pub fn zulip_event_kind(event_type: &str) -> (r: Option<ZulipEventKind>)
    ensures
        r == zulip_kind_of(event_type@),
{
    if str_eq(event_type, "message") {
        Some(ZulipEventKind::Message)
    } else if str_eq(event_type, "reaction") {
        Some(ZulipEventKind::Reaction)
    } else if str_eq(event_type, "update_message") {
        Some(ZulipEventKind::UpdateMessage)
    } else if str_eq(event_type, "delete_message") {
        Some(ZulipEventKind::DeleteMessage)
    } else if str_eq(event_type, "subscription") {
        Some(ZulipEventKind::Subscription)
    } else if str_eq(event_type, "realm_user") {
        Some(ZulipEventKind::RealmUser)
    } else {
        None
    }
}

/// What becomes of a pulled event.
#[derive(Debug, Clone, Copy, PartialEq, Eq, Structural)]
pub enum ZulipRoute {
    /// Its id was processed before: nothing is done.
    Duplicate,
    /// Of a type without a handler.
    Ignored,
    /// Handed to the handler of its kind.
    Deliver(ZulipEventKind),
}

/// The id under which an event is remembered: its own, unless it has none
/// or a negative one.
pub open spec fn tracked_id(id: Option<i64>) -> Option<i64> {
    match id {
        Some(n) => if n >= 0 {
            Some(n)
        } else {
            None
        },
        None => None,
    }
}

/// The route of an event with the id `id` and the type `event_type`, where
/// `seen` holds the ids processed so far.
pub open spec fn zulip_route_of(
    seen: Set<i64>,
    id: Option<i64>,
    event_type: Seq<char>,
) -> ZulipRoute {
    if tracked_id(id) matches Some(n) && seen.contains(n) {
        ZulipRoute::Duplicate
    } else {
        match zulip_kind_of(event_type) {
            Some(kind) => ZulipRoute::Deliver(kind),
            None => ZulipRoute::Ignored,
        }
    }
}

/// The ids remembered after an event with the id `id` was processed: `seen`
/// with the id added, or nothing at all where that would exceed `capacity`.
pub open spec fn after_recording(seen: Set<i64>, id: Option<i64>, capacity: nat) -> Set<i64> {
    match tracked_id(id) {
        Some(n) => if seen.insert(n).len() > capacity {
            Set::empty()
        } else {
            seen.insert(n)
        },
        None => seen,
    }
}

/// Keeps events pulled twice from reaching a handler twice, and picks the
/// handler for the others.
pub struct ZulipEventProcessor<H: ZulipEventHandler> {
    handler: H,
    processed_events: HashSet<i64>,
    max_processed_events: usize,
}

impl<H: ZulipEventHandler> ZulipEventProcessor<H> {
    /// The ids of the events processed and still remembered.
    pub closed spec fn seen(&self) -> Set<i64> {
        self.processed_events@
    }

    /// The number of ids beyond which all are forgotten.
    pub closed spec fn capacity(&self) -> nat {
        self.max_processed_events as nat
    }

    /// The handler that this processor hands events to.
    pub closed spec fn handler(&self) -> H {
        self.handler
    }

    /// A processor that remembers nothing yet.
    pub fn new(handler: H) -> (r: Self)
        ensures
            r.seen() == Set::<i64>::empty(),
            r.capacity() == MAX_PROCESSED_EVENTS,
            r.handler() == handler,
    {
        ZulipEventProcessor {
            handler,
            processed_events: HashSet::new(),
            max_processed_events: MAX_PROCESSED_EVENTS,
        }
    }

    /// The number of event ids remembered.
    pub fn processed_count(&self) -> (r: usize)
        ensures
            r == self.seen().len(),
    {
        self.processed_events.len()
    }

    /// The route of `event`, given what was processed so far.
    pub fn route(&self, event: &ZulipEvent) -> (r: ZulipRoute)
        ensures
            r == zulip_route_of(self.seen(), event.id, event.event_type@),
    {
        let duplicate = match event.id {
            Some(n) => n >= 0 && self.processed_events.contains(&n),
            None => false,
        };
        if duplicate {
            ZulipRoute::Duplicate
        } else {
            match zulip_event_kind(event.event_type.as_str()) {
                Some(kind) => ZulipRoute::Deliver(kind),
                None => ZulipRoute::Ignored,
            }
        }
    }

    /// Remembers that `event` was processed.
    pub fn mark_processed(&mut self, event: &ZulipEvent)
        ensures
            final(self).seen() == after_recording(old(self).seen(), event.id, old(self).capacity()),
            final(self).capacity() == old(self).capacity(),
            final(self).handler() == old(self).handler(),
    {
        if let Some(n) = event.id {
            if n >= 0 {
                self.processed_events.insert(n);
                if self.processed_events.len() > self.max_processed_events {
                    self.processed_events.clear();
                }
            }
        }
    }

    /// Hands `event` to the handler's method for `kind` and returns what
    /// that gives.
    fn deliver(&self, kind: ZulipEventKind, event: &ZulipEvent) -> (r: Result<(), BridgeError>)
        ensures
            self.handler().gives(kind, *event, r),
    {
        match kind {
            ZulipEventKind::Message => self.handler.handle_message(event),
            ZulipEventKind::Reaction => self.handler.handle_reaction(event),
            ZulipEventKind::UpdateMessage => self.handler.handle_update_message(event),
            ZulipEventKind::DeleteMessage => self.handler.handle_delete_message(event),
            ZulipEventKind::Subscription => self.handler.handle_subscription(event),
            ZulipEventKind::RealmUser => self.handler.handle_realm_user(event),
        }
    }

    /// Processes `event`. An event whose id was processed before succeeds
    /// with nothing done and nothing remembered anew. Any other is handed
    /// to the handler of its kind, if it has one; where that fails, the
    /// failure is returned and the event is not remembered; otherwise the
    /// event is remembered. The result is what the handler gave where the
    /// event was handed to it, and success where it was not.
    pub fn process_event(&mut self, event: &ZulipEvent) -> (r: Result<(), BridgeError>)
        ensures
            final(self).capacity() == old(self).capacity(),
            final(self).handler() == old(self).handler(),
            match zulip_route_of(old(self).seen(), event.id, event.event_type@) {
                ZulipRoute::Deliver(kind) => old(self).handler().gives(kind, *event, r),
                _ => r is Ok,
            },
            final(self).seen() == if r is Err || zulip_route_of(
                old(self).seen(),
                event.id,
                event.event_type@,
            ) is Duplicate {
                old(self).seen()
            } else {
                after_recording(old(self).seen(), event.id, old(self).capacity())
            },
    {
        match self.route(event) {
            ZulipRoute::Duplicate => Ok(()),
            ZulipRoute::Ignored => {
                self.mark_processed(event);
                Ok(())
            },
            ZulipRoute::Deliver(kind) => {
                let given = self.deliver(kind, event);
                if given.is_ok() {
                    self.mark_processed(event);
                }
                given
            },
        }
    }
}

/// An event that was processed and is still remembered is not delivered
/// again.
pub proof fn lemma_remembered_event_is_duplicate(seen: Set<i64>, id: i64, event_type: Seq<char>)
    requires
        id >= 0,
        seen.contains(id),
    ensures
        zulip_route_of(seen, Some(id), event_type) == ZulipRoute::Duplicate,
{
}

/// Right after an event is recorded, either its id is remembered or the
/// record was emptied because it had outgrown its capacity; and the record
/// never holds more ids than its capacity.
pub proof fn lemma_record_is_bounded(seen: Set<i64>, id: i64, capacity: nat)
    requires
        id >= 0,
        seen.finite(),
        seen.len() <= capacity,
    ensures
        after_recording(seen, Some(id), capacity).finite(),
        after_recording(seen, Some(id), capacity).len() <= capacity,
        after_recording(seen, Some(id), capacity).contains(id) || after_recording(
            seen,
            Some(id),
            capacity,
        ) == Set::<i64>::empty(),
{
}

} // verus!
