//! The two ways of pulling events from the team-chat side: a registered
//! queue that is polled, and a socket that is listened on. Each is held
//! here as its state and its decisions; the calls, the frames and the
//! sleeping are the caller's.

use vstd::prelude::*;
use vstd::string::StringExecFns;
use crate::text::{decimal, push_decimal, str_eq};
use crate::utils::BridgeError;
use crate::zulip::codec::{url_parse, url_parts};
use crate::zulip::types::{RegisterQueueRequest, ZulipEvent, ZulipEventsResponse, ZulipQueue};
use crate::zulip::urlencoding::{encode, urlencoded_text};

verus! {

/// The pause between two polls of a queue, in seconds.
pub const EVENT_POLL_INTERVAL_SECS: u64 = 5;

/// The pause before a new attempt to connect, in seconds.
pub const RECONNECT_DELAY_SECS: u64 = 5;

/// The number of failed attempts at which a loop gives up.
pub const MAX_RECONNECT_ATTEMPTS: u32 = 10;

/// The time without a frame after which a ping is sent, in seconds.
pub const HEARTBEAT_INTERVAL_SECS: u64 = 30;

/// The ids of `events`, in order.
pub open spec fn event_ids(events: Seq<ZulipEvent>) -> Seq<Option<i64>> {
    Seq::new(events.len(), |i: int| events[i].id)
}

/// The greatest of `last` and the ids among `ids`.
pub open spec fn last_after(last: i64, ids: Seq<Option<i64>>) -> i64
    decreases ids.len(),
{
    if ids.len() == 0 {
        last
    } else {
        let before = last_after(last, ids.drop_last());
        match ids.last() {
            Some(id) => if id > before {
                id
            } else {
                before
            },
            None => before,
        }
    }
}

/// Whether `ids` holds an id at every place, each greater than the one
/// before it and the first greater than `last`: what a queue promises of
/// the events after `last`.
pub open spec fn ascending_after(last: i64, ids: Seq<Option<i64>>) -> bool {
    &&& forall|i: int| 0 <= i < ids.len() ==> (#[trigger] ids[i]) is Some && ids[i]->0 > last
    &&& forall|i: int, j: int|
        0 <= i < j < ids.len() ==> (#[trigger] ids[i])->0 < (#[trigger] ids[j])->0
}

/// Where a batch is as a queue promises it, the position of the queue
/// after the batch is the id of its last event, so that the next batch,
/// which lies after that position, continues the ascent: the ids of the
/// two batches together are ascending too.
pub proof fn lemma_batches_ascend(last: i64, first: Seq<Option<i64>>, second: Seq<Option<i64>>)
    requires
        ascending_after(last, first),
        ascending_after(last_after(last, first), second),
    ensures
        last_after(last, first) == if first.len() == 0 {
            last
        } else {
            first.last()->0
        },
        ascending_after(last, first + second),
    decreases first.len(),
{
    lemma_last_of_ascending(last, first);
    let all = first + second;
    assert forall|i: int| 0 <= i < all.len() implies (#[trigger] all[i]) is Some && all[i]->0
        > last by {
        if i >= first.len() {
            assert(all[i] == second[i - first.len()]);
            if first.len() > 0 {
                assert(first[first.len() - 1] is Some);
            }
        } else {
            assert(all[i] == first[i]);
        }
    }
    assert forall|i: int, j: int| 0 <= i < j < all.len() implies (#[trigger] all[i])->0 < (
    #[trigger] all[j])->0 by {
        if j < first.len() {
            assert(all[i] == first[i] && all[j] == first[j]);
        } else if i >= first.len() {
            assert(all[i] == second[i - first.len()] && all[j] == second[j - first.len()]);
        } else {
            assert(all[i] == first[i]);
            assert(all[j] == second[j - first.len()]);
            assert(first[first.len() - 1] is Some);
            if i < first.len() - 1 {
                assert(first[i]->0 < first[first.len() - 1]->0);
            }
        }
    }
}

/// After a batch that is as a queue promises it, the position of the
/// queue is the id of the batch's last event.
pub proof fn lemma_last_of_ascending(last: i64, ids: Seq<Option<i64>>)
    requires
        ascending_after(last, ids),
    ensures
        last_after(last, ids) == if ids.len() == 0 {
            last
        } else {
            ids.last()->0
        },
    decreases ids.len(),
{
    if ids.len() > 0 {
        let head = ids.drop_last();
        assert forall|i: int| 0 <= i < head.len() implies (#[trigger] head[i]) is Some && head[i]->0
            > last by {
            assert(head[i] == ids[i]);
        }
        assert forall|i: int, j: int| 0 <= i < j < head.len() implies (#[trigger] head[i])->0 < (
        #[trigger] head[j])->0 by {
            assert(head[i] == ids[i] && head[j] == ids[j]);
        }
        lemma_last_of_ascending(last, head);
        assert(ids[ids.len() - 1] is Some);
        if head.len() > 0 {
            assert(head.last() == ids[ids.len() - 2]);
        }
    }
}

/// Where the polling of a queue stands.
#[derive(Debug, Clone)]
pub enum PollState {
    /// No queue is registered.
    Unregistered,
    /// The queue `queue_id` is polled for the events after `last_event_id`.
    Polling { queue_id: String, last_event_id: i64 },
    /// The loop gave up.
    Failed,
}

/// What a poll of the queue brought.
#[derive(Debug)]
pub enum EventsOutcome {
    /// These events.
    Events(Vec<ZulipEvent>),
    /// The server knows the queue no longer.
    QueueGone,
    /// A failure that may pass.
    Transient(BridgeError),
}

/// What happened since the last step of the polling.
#[derive(Debug)]
pub enum PollEvent {
    /// The loop starts, or a pause is over.
    Wake,
    /// The registration of a queue was answered.
    Registered(Result<ZulipQueue, BridgeError>),
    /// A poll was answered.
    Polled(EventsOutcome),
}

/// What to do next in the polling.
#[derive(Debug)]
pub enum PollAction {
    /// Register a queue with this request and report the answer.
    Register(RegisterQueueRequest),
    /// Poll this queue for the events after `last_event_id` and report
    /// the answer.
    GetEvents { queue_id: String, last_event_id: i64 },
    /// Hand these events on, in this order, then pause and wake.
    Deliver { events: Vec<ZulipEvent>, pause_secs: u64 },
    /// Pause and wake.
    Pause { pause_secs: u64 },
    /// Give up with this error.
    Fail(BridgeError),
    /// End: the loop was stopped.
    Finish,
}

/// Polls a registered event queue.
pub struct ZulipWebSocketClient {
    state: PollState,
    attempts: u32,
    running: bool,
}

/// Whether `action` asks to register a queue for the default event types.
pub open spec fn is_default_registration(action: PollAction) -> bool {
    &&& action matches PollAction::Register(request)
    &&& request.event_types@.len() == 6
    &&& forall|i: int|
        0 <= i < 6 ==> (#[trigger] request.event_types@[i])@
            == crate::zulip::types::default_event_types()[i]
    &&& request.all_public_streams == Some(true)
    &&& request.include_subscribers == Some(false)
    &&& request.client_gravatar == Some(true)
    &&& request.slim_presence == Some(true)
}

/// Whether `action` asks to poll the queue that `state` names, from the
/// position that it names.
pub open spec fn is_poll_of(action: PollAction, state: PollState) -> bool {
    &&& state matches PollState::Polling { queue_id, last_event_id }
    &&& action matches PollAction::GetEvents { queue_id: asked, last_event_id: after }
    &&& asked@ == queue_id@
    &&& after == last_event_id
}

/// Whether `state` is the polling of the queue `queue_id` from the
/// position `last_event_id`.
pub open spec fn is_polling(state: PollState, queue_id: Seq<char>, last_event_id: i64) -> bool {
    state matches PollState::Polling { queue_id: q, last_event_id: l } && q@ == queue_id && l
        == last_event_id
}

/// Whether two states are the same, strings by their characters.
pub open spec fn same_state(a: PollState, b: PollState) -> bool {
    match a {
        PollState::Unregistered => b is Unregistered,
        PollState::Failed => b is Failed,
        PollState::Polling { queue_id, last_event_id } => is_polling(b, queue_id@, last_event_id),
    }
}

/// The step of the polling: whether, from the state `before` with
/// `attempts` failed registrations so far, the event `event` leads to the
/// action `action`, the state `after` and `attempts_after` failed
/// registrations.
///
/// Without a queue, one is registered. A queue that was registered is
/// polled from the position it names. A registration that failed counts
/// as an attempt: at the limit the loop gives up, before it pauses and
/// tries again. Events that a poll brought are handed on, all of them and
/// in their order, and the position moves to the greatest id seen; then
/// comes a pause. A queue that is gone is replaced by a new registration
/// at once. A failure that may pass is followed by a pause and another
/// poll. After giving up nothing more is done.
pub open spec fn poll_step(
    before: PollState,
    attempts: u32,
    event: PollEvent,
    action: PollAction,
    after: PollState,
    attempts_after: u32,
) -> bool {
    match before {
        PollState::Failed => {
            &&& action is Finish
            &&& after is Failed
            &&& attempts_after == attempts
        },
        PollState::Unregistered => match event {
            PollEvent::Registered(Ok(queue)) => {
                &&& is_polling(after, queue.queue_id@, queue.last_event_id)
                &&& is_poll_of(action, after)
                &&& attempts_after == attempts
            },
            PollEvent::Registered(Err(_)) => {
                if attempts + 1 >= MAX_RECONNECT_ATTEMPTS {
                    &&& action matches PollAction::Fail(BridgeError::Zulip(m))
                    &&& m@ == "Max reconnection attempts (10) reached"@
                    &&& after is Failed
                    &&& attempts_after == attempts
                } else {
                    &&& action matches PollAction::Pause { pause_secs }
                    &&& pause_secs == RECONNECT_DELAY_SECS
                    &&& after is Unregistered
                    &&& attempts_after == attempts + 1
                }
            },
            _ => {
                &&& is_default_registration(action)
                &&& after is Unregistered
                &&& attempts_after == attempts
            },
        },
        PollState::Polling { queue_id, last_event_id } => match event {
            PollEvent::Polled(EventsOutcome::Events(events)) => {
                &&& action matches PollAction::Deliver { events: delivered, pause_secs }
                &&& delivered == events
                &&& pause_secs == EVENT_POLL_INTERVAL_SECS
                &&& is_polling(after, queue_id@, last_after(last_event_id, event_ids(events@)))
                &&& attempts_after == attempts
            },
            PollEvent::Polled(EventsOutcome::QueueGone) => {
                &&& is_default_registration(action)
                &&& after is Unregistered
                &&& attempts_after == attempts
            },
            PollEvent::Polled(EventsOutcome::Transient(_)) => {
                &&& action matches PollAction::Pause { pause_secs }
                &&& pause_secs == EVENT_POLL_INTERVAL_SECS
                &&& same_state(before, after)
                &&& attempts_after == attempts
            },
            _ => {
                &&& is_poll_of(action, before)
                &&& same_state(before, after)
                &&& attempts_after == attempts
            },
        },
    }
}

impl ZulipWebSocketClient {
    /// Where the polling stands.
    pub closed spec fn state(&self) -> PollState {
        self.state
    }

    /// The number of registrations that failed.
    pub closed spec fn attempts(&self) -> u32 {
        self.attempts
    }

    /// Whether the loop is meant to go on.
    pub closed spec fn running(&self) -> bool {
        self.running
    }

    /// The client's invariant: fewer attempts failed than the limit allows.
    pub closed spec fn wf(&self) -> bool {
        self.attempts < MAX_RECONNECT_ATTEMPTS
    }

    /// A client that has no queue and is not running.
    pub fn new() -> (r: Self)
        ensures
            r.wf(),
            r.state() is Unregistered,
            r.attempts() == 0,
            !r.running(),
    {
        ZulipWebSocketClient { state: PollState::Unregistered, attempts: 0, running: false }
    }

    /// Sets the loop going: it registers a queue first.
    pub fn start(&mut self) -> (action: PollAction)
        requires
            old(self).wf(),
        ensures
            final(self).wf(),
            final(self).running(),
            poll_step(
                old(self).state(),
                old(self).attempts(),
                PollEvent::Wake,
                action,
                final(self).state(),
                final(self).attempts(),
            ),
    {
        self.running = true;
        self.step(PollEvent::Wake)
    }

    /// Asks the loop to end: every later step finishes.
    pub fn stop(&mut self)
        ensures
            !final(self).running(),
            final(self).state() == old(self).state(),
            final(self).attempts() == old(self).attempts(),
            final(self).wf() == old(self).wf(),
    {
        self.running = false;
    }

    /// Whether the loop is meant to go on.
    pub fn is_running(&self) -> (r: bool)
        ensures
            r == self.running(),
    {
        self.running
    }

    /// The position of the queue that is polled, if one is.
    pub fn last_event_id(&self) -> (r: Option<i64>)
        ensures
            r == match self.state() {
                PollState::Polling { queue_id, last_event_id } => Some(last_event_id),
                _ => None,
            },
    {
        match &self.state {
            PollState::Polling { queue_id: _, last_event_id } => Some(*last_event_id),
            _ => None,
        }
    }

    fn poll_action(&self) -> (action: PollAction)
        requires
            self.state is Polling,
        ensures
            is_poll_of(action, self.state),
    {
        match &self.state {
            PollState::Polling { queue_id, last_event_id } => PollAction::GetEvents {
                queue_id: queue_id.clone(),
                last_event_id: *last_event_id,
            },
            _ => PollAction::Finish,
        }
    }

    /// The position after `events`: the greatest of `last` and their ids.
    pub fn advance(last: i64, events: &Vec<ZulipEvent>) -> (r: i64)
        ensures
            r == last_after(last, event_ids(events@)),
    {
        let mut position = last;
        let ghost ids = event_ids(events@);
        let mut i: usize = 0;
        proof {
            assert(ids.take(0) =~= Seq::<Option<i64>>::empty());
        }
        while i < events.len()
            invariant
                i <= events@.len(),
                ids == event_ids(events@),
                position == last_after(last, ids.take(i as int)),
            decreases events@.len() - i,
        {
            proof {
                assert(ids.take(i + 1).drop_last() =~= ids.take(i as int));
                assert(ids.take(i + 1).last() == events@[i as int].id);
            }
            if let Some(id) = events[i].id {
                if id > position {
                    position = id;
                }
            }
            i += 1;
        }
        proof {
            assert(ids.take(events@.len() as int) =~= ids);
        }
        position
    }

    /// Makes one step of the loop: takes what happened and says what to do
    /// next. A loop that was stopped finishes and changes nothing.
    pub fn step(&mut self, event: PollEvent) -> (action: PollAction)
        requires
            old(self).wf(),
        ensures
            final(self).wf(),
            final(self).running() == old(self).running(),
            if old(self).running() {
                poll_step(
                    old(self).state(),
                    old(self).attempts(),
                    event,
                    action,
                    final(self).state(),
                    final(self).attempts(),
                )
            } else {
                &&& action is Finish
                &&& final(self).state() == old(self).state()
                &&& final(self).attempts() == old(self).attempts()
            },
    {
        if !self.running {
            return PollAction::Finish;
        }
        match &self.state {
            PollState::Failed => PollAction::Finish,
            PollState::Unregistered => match event {
                PollEvent::Registered(Ok(queue)) => {
                    self.state =
                    PollState::Polling {
                        queue_id: queue.queue_id,
                        last_event_id: queue.last_event_id,
                    };
                    self.poll_action()
                },
                PollEvent::Registered(Err(_)) => {
                    if self.attempts + 1 >= MAX_RECONNECT_ATTEMPTS {
                        self.state = PollState::Failed;
                        PollAction::Fail(
                            BridgeError::Zulip(
                                String::from_str("Max reconnection attempts (10) reached"),
                            ),
                        )
                    } else {
                        self.attempts = self.attempts + 1;
                        PollAction::Pause { pause_secs: RECONNECT_DELAY_SECS }
                    }
                },
                _ => PollAction::Register(RegisterQueueRequest::default()),
            },
            PollState::Polling { queue_id, last_event_id } => match event {
                PollEvent::Polled(EventsOutcome::Events(events)) => {
                    let position = Self::advance(*last_event_id, &events);
                    self.state =
                    PollState::Polling { queue_id: queue_id.clone(), last_event_id: position };
                    PollAction::Deliver { events, pause_secs: EVENT_POLL_INTERVAL_SECS }
                },
                PollEvent::Polled(EventsOutcome::QueueGone) => {
                    self.state = PollState::Unregistered;
                    PollAction::Register(RegisterQueueRequest::default())
                },
                PollEvent::Polled(EventsOutcome::Transient(_)) => PollAction::Pause {
                    pause_secs: EVENT_POLL_INTERVAL_SECS,
                },
                _ => self.poll_action(),
            },
        }
    }
}

/// A loop that is running survives every failed registration short of the
/// limit: after fewer than `MAX_RECONNECT_ATTEMPTS - 1` failures, one more
/// failure leads to a pause, not to the end, and a registration that then
/// succeeds is followed by a poll of the new queue from its position.
pub proof fn lemma_survives_failures(
    attempts: u32,
    cause: BridgeError,
    action: PollAction,
    after: PollState,
    attempts_after: u32,
)
    requires
        attempts + 1 < MAX_RECONNECT_ATTEMPTS,
        poll_step(
            PollState::Unregistered,
            attempts,
            PollEvent::Registered(Err(cause)),
            action,
            after,
            attempts_after,
        ),
    ensures
        action is Pause,
        after is Unregistered,
        attempts_after == attempts + 1,
        attempts_after < MAX_RECONNECT_ATTEMPTS,
{
}

/// What a frame of the socket is, as far as the listening cares.
#[derive(Debug)]
pub enum SocketFrame {
    /// A text frame with this payload.
    Text(String),
    /// A ping with this payload.
    Ping(Vec<u8>),
    /// A pong.
    Pong,
    /// A close frame.
    Close,
    /// Any other frame.
    Other,
    /// The socket failed.
    Failed(String),
    /// The socket ended.
    Ended,
    /// No frame came within the heartbeat interval.
    Idle,
}

/// What to do with a frame.
#[derive(Debug)]
pub enum SocketAction {
    /// Read the events out of this text and hand them on.
    Handle(String),
    /// Answer with a pong that carries this payload.
    SendPong(Vec<u8>),
    /// Send a ping without payload.
    SendPing,
    /// Go on listening.
    Continue,
    /// Leave the connection; it ended without an error.
    Disconnect,
}

/// What to do after a connection ended.
#[derive(Debug)]
pub enum ReconnectAction {
    /// Connect again after this pause.
    Reconnect { pause_secs: u64 },
    /// Give up with this error.
    Fail(BridgeError),
    /// End: the loop was stopped.
    Finish,
}

/// The action that a frame calls for: a text is handled, a ping is
/// answered with its own payload, a pong and any other frame are passed
/// over, silence is broken with a ping, and a close frame, a failure and
/// the end of the socket end the connection.
pub open spec fn socket_action(frame: SocketFrame, action: SocketAction) -> bool {
    match frame {
        SocketFrame::Text(text) => action matches SocketAction::Handle(t) && t == text,
        SocketFrame::Ping(data) => action matches SocketAction::SendPong(d) && d == data,
        SocketFrame::Pong => action is Continue,
        SocketFrame::Other => action is Continue,
        SocketFrame::Idle => action is SendPing,
        SocketFrame::Close => action is Disconnect,
        SocketFrame::Failed(_) => action is Disconnect,
        SocketFrame::Ended => action is Disconnect,
    }
}

/// Listens on a socket of the team-chat side.
pub struct ZulipRealTimeClient {
    site: String,
    api_key: String,
    attempts: u32,
    running: bool,
}

/// The scheme of the socket for a site with the scheme `scheme`.
pub open spec fn socket_scheme(scheme: Seq<char>) -> Seq<char> {
    if scheme == "http"@ {
        "ws"@
    } else {
        "wss"@
    }
}

/// The port of the socket where the site names none.
pub open spec fn socket_default_port(scheme: Seq<char>) -> u16 {
    if scheme == "http"@ {
        80
    } else {
        443
    }
}

/// The address of the socket of a site with the given parts, for the
/// account with the key `api_key`.
pub open spec fn socket_url_of(
    parts: (Seq<char>, Option<Seq<char>>, Option<u16>),
    api_key: Seq<char>,
) -> Seq<char> {
    socket_scheme(parts.0) + "://"@ + match parts.1 {
        Some(host) => host,
        None => "localhost"@,
    } + ":"@ + decimal(
        match parts.2 {
            Some(port) => port as int,
            None => socket_default_port(parts.0) as int,
        },
    ) + "/api/v1/events?api_key="@ + urlencoded_text(api_key)
}

impl ZulipRealTimeClient {
    /// The site's address.
    pub closed spec fn site(&self) -> Seq<char> {
        self.site@
    }

    /// The key of the bot account.
    pub closed spec fn api_key(&self) -> Seq<char> {
        self.api_key@
    }

    /// The number of connections that failed.
    pub closed spec fn attempts(&self) -> u32 {
        self.attempts
    }

    /// Whether the loop is meant to go on.
    pub closed spec fn running(&self) -> bool {
        self.running
    }

    /// The client's invariant: fewer attempts failed than the limit allows.
    pub closed spec fn wf(&self) -> bool {
        self.attempts < MAX_RECONNECT_ATTEMPTS
    }

    /// A client for the site `site` and the account with the key
    /// `api_key`, not yet running.
    pub fn new(site: &str, api_key: &str) -> (r: Self)
        ensures
            r.wf(),
            r.site() == site@,
            r.api_key() == api_key@,
            r.attempts() == 0,
            !r.running(),
    {
        ZulipRealTimeClient {
            site: site.to_owned(),
            api_key: api_key.to_owned(),
            attempts: 0,
            running: false,
        }
    }

    /// The address of the socket. Fails where the site is not an address.
    pub fn get_websocket_url(&self) -> (r: Result<String, BridgeError>)
        ensures
            match r {
                Ok(address) => url_parts(self.site()) matches Ok(parts) && address@
                    == socket_url_of(parts, self.api_key()),
                Err(e) => {
                    &&& url_parts(self.site()) matches Err(reason)
                    &&& e matches BridgeError::Zulip(m)
                    &&& m@ == "Invalid site URL: "@ + reason
                },
            },
    {
        let parts = match url_parse(self.site.as_str()) {
            Ok(parts) => parts,
            Err(reason) => {
                let mut m = String::from_str("Invalid site URL: ");
                m.append(reason.as_str());
                return Err(BridgeError::Zulip(m));
            },
        };
        let plain = str_eq(parts.scheme.as_str(), "http");
        let mut address = String::from_str(
            if plain {
                "ws"
            } else {
                "wss"
            },
        );
        address.append("://");
        match &parts.host {
            Some(host) => {
                address.append(host.as_str());
            },
            None => {
                address.append("localhost");
            },
        }
        address.append(":");
        let port: u16 = match parts.port {
            Some(port) => port,
            None => if plain {
                80
            } else {
                443
            },
        };
        push_decimal(&mut address, port as i64);
        address.append("/api/v1/events?api_key=");
        address.append(encode(self.api_key.as_str()).as_str());
        Ok(address)
    }

    /// Sets the loop going.
    pub fn start_websocket(&mut self)
        ensures
            final(self).running(),
            final(self).attempts() == old(self).attempts(),
            final(self).wf() == old(self).wf(),
            final(self).site() == old(self).site(),
            final(self).api_key() == old(self).api_key(),
    {
        self.running = true;
    }

    /// Asks the loop to end.
    pub fn stop(&mut self)
        ensures
            !final(self).running(),
            final(self).attempts() == old(self).attempts(),
            final(self).wf() == old(self).wf(),
            final(self).site() == old(self).site(),
            final(self).api_key() == old(self).api_key(),
    {
        self.running = false;
    }

    /// Whether the loop is meant to go on.
    pub fn is_running(&self) -> (r: bool)
        ensures
            r == self.running(),
    {
        self.running
    }

    /// What to do with a frame that came while listening.
    pub fn connect_and_listen(&self, frame: SocketFrame) -> (action: SocketAction)
        ensures
            socket_action(frame, action),
    {
        match frame {
            SocketFrame::Text(text) => SocketAction::Handle(text),
            SocketFrame::Ping(data) => SocketAction::SendPong(data),
            SocketFrame::Pong => SocketAction::Continue,
            SocketFrame::Other => SocketAction::Continue,
            SocketFrame::Idle => SocketAction::SendPing,
            SocketFrame::Close => SocketAction::Disconnect,
            SocketFrame::Failed(_) => SocketAction::Disconnect,
            SocketFrame::Ended => SocketAction::Disconnect,
        }
    }

    /// The events of a text frame, given what reading the frame as an
    /// events payload gave: the events in their order, or a parse error
    /// with the reader's complaint.
    pub fn handle_websocket_message(
        &self,
        parsed: Result<ZulipEventsResponse, String>,
    ) -> (r: Result<
        Vec<ZulipEvent>,
        BridgeError,
    >)
        ensures
            match parsed {
                Ok(response) => r == Ok::<Vec<ZulipEvent>, BridgeError>(response.events),
                Err(reason) => r matches Err(BridgeError::Parse(m)) && m@
                    == "Failed to parse events: "@ + reason@,
            },
    {
        match parsed {
            Ok(response) => Ok(response.events),
            Err(reason) => {
                let mut m = String::from_str("Failed to parse events: ");
                m.append(reason.as_str());
                Err(BridgeError::Parse(m))
            },
        }
    }

    /// What to do after a connection ended with `outcome`. A loop that was
    /// stopped finishes. A connection that ended without an error is made
    /// anew at once. One that failed counts as an attempt: at the limit
    /// the loop gives up with that failure, before it pauses and connects
    /// again.
    pub fn connection_ended(&mut self, outcome: Result<(), BridgeError>) -> (action:
        ReconnectAction)
        requires
            old(self).wf(),
        ensures
            final(self).wf(),
            final(self).running() == old(self).running(),
            final(self).site() == old(self).site(),
            final(self).api_key() == old(self).api_key(),
            if !old(self).running() {
                action is Finish && final(self).attempts() == old(self).attempts()
            } else {
                match outcome {
                    Ok(_) => action matches ReconnectAction::Reconnect { pause_secs } && pause_secs
                        == 0 && final(self).attempts() == old(self).attempts(),
                    Err(cause) => if old(self).attempts() + 1 >= MAX_RECONNECT_ATTEMPTS {
                        &&& action matches ReconnectAction::Fail(e)
                        &&& e == cause
                        &&& final(self).attempts() == old(self).attempts()
                    } else {
                        &&& action matches ReconnectAction::Reconnect { pause_secs }
                        &&& pause_secs == RECONNECT_DELAY_SECS
                        &&& final(self).attempts() == old(self).attempts() + 1
                    },
                }
            },
    {
        if !self.running {
            return ReconnectAction::Finish;
        }
        match outcome {
            Ok(_) => ReconnectAction::Reconnect { pause_secs: 0 },
            Err(cause) => {
                if self.attempts + 1 >= MAX_RECONNECT_ATTEMPTS {
                    ReconnectAction::Fail(cause)
                } else {
                    self.attempts = self.attempts + 1;
                    ReconnectAction::Reconnect { pause_secs: RECONNECT_DELAY_SECS }
                }
            },
        }
    }
}

} // verus!
