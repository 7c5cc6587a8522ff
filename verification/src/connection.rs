//! One broker session: subscribing, polling, and giving up on it.
//!
//! The manager is a state machine. The program around it does the work on the
//! wire and tells the manager what happened; the manager answers with the new
//! state and a report of what it made of the event.

use crate::config::{connect_request, connect_request_of, BrokerConfig, ConnectRequest};
use crate::decoder::{decode, decode_spec, decoded_view, DecodeError};
use crate::dedup::{first_sighting, lemma_duplicate_unless_first_sighting, marked, DedupStore};
use crate::event::{NotificationEvent, NotificationEventView};
use crate::watchdog::{stale_at, Watchdog, STALE_AFTER_SECONDS};
use vstd::prelude::*;

verus! {

/// Where a session stands.
#[derive(Clone, Copy, Debug, PartialEq, Eq, Structural)]
pub enum ConnectionState {
    /// Nothing was attempted yet.
    Disconnected,
    /// A connection was asked for; the subscription is not confirmed.
    Connecting,
    /// The topic is subscribed and the connection is polled.
    Subscribed,
    /// The session failed and waits to be attempted again.
    ReconnectPending,
}

/// What the program reports of a session.
#[derive(Clone, Debug, PartialEq, Eq)]
pub enum SessionEvent {
    /// The subscription was accepted.
    SubscribeSucceeded,
    /// The subscription was refused.
    SubscribeFailed,
    /// The broker published a message with this payload.
    Publish(Vec<u8>),
    /// Any other event of the protocol.
    Protocol,
    /// A poll ended without an event.
    Quiet,
    /// The transport failed.
    TransportError,
    /// The connection will deliver no more events.
    EndOfStream,
}

/// What the manager made of an event. Every handled event gives exactly one
/// report, and only [`Report::Forwarded`] carries something for the sink.
#[derive(Clone, Debug, PartialEq, Eq)]
pub enum Report {
    /// A connection attempt begins.
    Connecting,
    /// The topic is subscribed.
    Subscribed,
    /// The subscription failed; the session is given up.
    SubscribeFailed,
    /// A new notification, to be shown.
    Forwarded(NotificationEvent),
    /// A notification whose identifier was already seen; dropped.
    DuplicateDropped(String),
    /// A payload that does not decode; dropped.
    DecodeFailed(DecodeError),
    /// An event of the protocol that carries no notification.
    ProtocolEvent,
    /// A quiet poll within the time allowed.
    Waiting,
    /// The broker was silent for too long; the session is given up.
    Stale,
    /// The transport failed; the session is given up.
    TransportError,
    /// The connection ended; the session is given up.
    EndOfStream,
}

/// A [`Report`] as the contracts see it.
pub enum ReportView {
    Connecting,
    Subscribed,
    SubscribeFailed,
    Forwarded(NotificationEventView),
    DuplicateDropped(Seq<char>),
    DecodeFailed(DecodeError),
    ProtocolEvent,
    Waiting,
    Stale,
    TransportError,
    EndOfStream,
}

impl View for Report {
    type V = ReportView;

    open spec fn view(&self) -> ReportView {
        match self {
            Report::Connecting => ReportView::Connecting,
            Report::Subscribed => ReportView::Subscribed,
            Report::SubscribeFailed => ReportView::SubscribeFailed,
            Report::Forwarded(event) => ReportView::Forwarded(event@),
            Report::DuplicateDropped(id) => ReportView::DuplicateDropped(id@),
            Report::DecodeFailed(error) => ReportView::DecodeFailed(*error),
            Report::ProtocolEvent => ReportView::ProtocolEvent,
            Report::Waiting => ReportView::Waiting,
            Report::Stale => ReportView::Stale,
            Report::TransportError => ReportView::TransportError,
            Report::EndOfStream => ReportView::EndOfStream,
        }
    }
}

/// The manager of one session: its state and its watchdog.
pub struct ConnectionManager {
    state: ConnectionState,
    watchdog: Watchdog,
}

/// A [`ConnectionManager`] as the contracts see it.
pub struct ManagerView {
    pub state: ConnectionState,
    /// The clock reading of the last activity.
    pub last_activity: u128,
}

impl View for ConnectionManager {
    type V = ManagerView;

    closed spec fn view(&self) -> ManagerView {
        ManagerView { state: self.state, last_activity: self.watchdog@ }
    }
}

/// What follows a decoded payload: the store afterwards and the report.
///
/// A payload that failed to decode leaves the store alone. A decoded one is
/// forwarded if its identifier is new, and the identifier is then marked;
/// otherwise it is dropped as a duplicate.
pub open spec fn publish_step(
    seen: Set<Seq<char>>,
    decoded: Result<NotificationEventView, DecodeError>,
) -> (Set<Seq<char>>, ReportView) {
    match decoded {
        Err(error) => (seen, ReportView::DecodeFailed(error)),
        Ok(event) => if seen.contains(event.message_id) {
            (seen, ReportView::DuplicateDropped(event.message_id))
        } else {
            (seen.insert(event.message_id), ReportView::Forwarded(event))
        },
    }
}

/// Whether a session in `state` is waiting for `event`.
///
/// A connecting session waits for the answer to its subscription, a
/// subscribed one for what a poll brings. The other two states wait for
/// nothing that a session can report.
pub open spec fn awaited(state: ConnectionState, event: SessionEvent) -> bool {
    match state {
        ConnectionState::Connecting => event is SubscribeSucceeded || event is SubscribeFailed,
        ConnectionState::Subscribed => !(event is SubscribeSucceeded || event is SubscribeFailed),
        _ => false,
    }
}

/// A step of a session: the manager and the store afterwards, and the report.
pub struct SessionStep {
    pub manager: ManagerView,
    pub seen: Set<Seq<char>>,
    pub report: ReportView,
}

/// The manager in state `state`, its watchdog untouched.
pub open spec fn moved_to(manager: ManagerView, state: ConnectionState) -> ManagerView {
    ManagerView { state, last_activity: manager.last_activity }
}

/// The subscribed manager after activity at `now`.
pub open spec fn active_at(now: u128) -> ManagerView {
    ManagerView { state: ConnectionState::Subscribed, last_activity: now }
}

/// The transition function of a session.
///
/// `None` where the session does not wait for the event: nothing changes
/// then. Every event that arrives from the broker counts as activity; a quiet
/// poll does not, and is where silence is measured.
pub open spec fn session_step(
    manager: ManagerView,
    seen: Set<Seq<char>>,
    event: SessionEvent,
    now: u128,
) -> Option<SessionStep> {
    if !awaited(manager.state, event) {
        None
    } else {
        Some(
            match event {
                SessionEvent::SubscribeSucceeded => SessionStep {
                    manager: active_at(now),
                    seen,
                    report: ReportView::Subscribed,
                },
                SessionEvent::SubscribeFailed => SessionStep {
                    manager: moved_to(manager, ConnectionState::ReconnectPending),
                    seen,
                    report: ReportView::SubscribeFailed,
                },
                SessionEvent::Publish(payload) => {
                    let (marked, report) = publish_step(seen, decode_spec(payload@));
                    SessionStep { manager: active_at(now), seen: marked, report }
                },
                SessionEvent::Protocol => SessionStep {
                    manager: active_at(now),
                    seen,
                    report: ReportView::ProtocolEvent,
                },
                SessionEvent::Quiet => if stale_at(
                    manager.last_activity,
                    now,
                    STALE_AFTER_SECONDS,
                ) {
                    SessionStep {
                        manager: moved_to(manager, ConnectionState::ReconnectPending),
                        seen,
                        report: ReportView::Stale,
                    }
                } else {
                    SessionStep { manager, seen, report: ReportView::Waiting }
                },
                SessionEvent::TransportError => SessionStep {
                    manager: moved_to(manager, ConnectionState::ReconnectPending),
                    seen,
                    report: ReportView::TransportError,
                },
                SessionEvent::EndOfStream => SessionStep {
                    manager: moved_to(manager, ConnectionState::ReconnectPending),
                    seen,
                    report: ReportView::EndOfStream,
                },
            },
        )
    }
}

/// Decides what becomes of a decoded payload, and marks a new identifier.
pub fn on_decoded(decoded: Result<NotificationEvent, DecodeError>, store: &mut DedupStore) -> (report:
    Report)
    ensures
        (final(store)@, report@) == publish_step(old(store)@, decoded_view(decoded)),
{
    match decoded {
        Err(error) => Report::DecodeFailed(error),
        Ok(event) => {
            if store.check_and_mark(event.message_id.as_str()) {
                Report::DuplicateDropped(event.message_id)
            } else {
                Report::Forwarded(event)
            }
        },
    }
}

impl ConnectionManager {
    /// A manager that has attempted nothing.
    pub fn new() -> (manager: Self)
        ensures
            manager@ == (ManagerView { state: ConnectionState::Disconnected, last_activity: 0 }),
    {
        ConnectionManager { state: ConnectionState::Disconnected, watchdog: Watchdog::new(0) }
    }

    /// The state of the session.
    pub fn state(&self) -> (state: ConnectionState)
        ensures
            state == self@.state,
    {
        self.state
    }

    /// Begins a connection attempt and says what to connect to.
    ///
    /// Whatever the session was doing is given up: the manager is
    /// connecting afterwards.
    pub fn connect(&mut self, config: &BrokerConfig) -> (request: ConnectRequest)
        ensures
            final(self)@ == moved_to(old(self)@, ConnectionState::Connecting),
            request@ == connect_request_of(config@),
    {
        self.state = ConnectionState::Connecting;
        connect_request(config)
    }

    /// Takes in what the program reports of the session at clock reading
    /// `now`.
    ///
    /// `None` means that the session was not waiting for this event and that
    /// nothing changed.
    pub fn handle(&mut self, event: &SessionEvent, now: u128, store: &mut DedupStore) -> (report:
        Option<Report>)
        ensures
            match session_step(old(self)@, old(store)@, *event, now) {
                None => report is None && final(self)@ == old(self)@ && final(store)@ == old(
                    store,
                )@,
                Some(step) => report is Some && report->0@ == step.report && final(self)@
                    == step.manager && final(store)@ == step.seen,
            },
    {
        match self.state {
            ConnectionState::Connecting => match event {
                SessionEvent::SubscribeSucceeded => {
                    self.watchdog.record_activity(now);
                    self.state = ConnectionState::Subscribed;
                    Some(Report::Subscribed)
                },
                SessionEvent::SubscribeFailed => {
                    self.state = ConnectionState::ReconnectPending;
                    Some(Report::SubscribeFailed)
                },
                _ => None,
            },
            ConnectionState::Subscribed => match event {
                SessionEvent::SubscribeSucceeded => None,
                SessionEvent::SubscribeFailed => None,
                SessionEvent::Publish(payload) => {
                    self.watchdog.record_activity(now);
                    let decoded = decode(payload.as_slice());
                    Some(on_decoded(decoded, store))
                },
                SessionEvent::Protocol => {
                    self.watchdog.record_activity(now);
                    Some(Report::ProtocolEvent)
                },
                SessionEvent::Quiet => {
                    if self.watchdog.is_stale(now, STALE_AFTER_SECONDS) {
                        self.state = ConnectionState::ReconnectPending;
                        Some(Report::Stale)
                    } else {
                        Some(Report::Waiting)
                    }
                },
                SessionEvent::TransportError => {
                    self.state = ConnectionState::ReconnectPending;
                    Some(Report::TransportError)
                },
                SessionEvent::EndOfStream => {
                    self.state = ConnectionState::ReconnectPending;
                    Some(Report::EndOfStream)
                },
            },
            _ => None,
        }
    }
}

/// The identifiers of a run of events.
pub open spec fn ids_of(events: Seq<NotificationEventView>) -> Seq<Seq<char>> {
    events.map_values(|event: NotificationEventView| event.message_id)
}

/// In a run of decoded payloads between two resets, one is forwarded exactly
/// when its identifier is new to the store and to the run; every other one
/// is dropped as a duplicate. Either way the store holds the identifier
/// afterwards.
pub proof fn lemma_forwarded_on_first_sighting(
    seen: Set<Seq<char>>,
    events: Seq<NotificationEventView>,
    at: int,
)
    requires
        0 <= at < events.len(),
    ensures
        ({
            let ids = ids_of(events);
            let (after, report) = publish_step(
                marked(seen, ids.take(at)),
                Ok(events[at]),
            );
            &&& after == marked(seen, ids.take(at + 1))
            &&& report == if !seen.contains(ids[at]) && first_sighting(ids, at) {
                ReportView::Forwarded(events[at])
            } else {
                ReportView::DuplicateDropped(ids[at])
            }
        }),
{
    let ids = ids_of(events);
    lemma_duplicate_unless_first_sighting(seen, ids, at);
    assert(ids.take(at + 1).drop_last() == ids.take(at));
}

} // verus!
