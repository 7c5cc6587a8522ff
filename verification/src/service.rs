//! The driver of the subscription: it starts sessions, and starts another
//! one whenever one fails.
//!
//! The service never stops by itself and counts no attempts: after every
//! failed session it waits the same fixed delay and connects again.

use crate::config::{connect_request_of, BrokerConfig, BrokerConfigView, ConnectRequest, ConnectRequestView};
use crate::connection::{
    awaited, moved_to, session_step, ConnectionManager, ConnectionState, ManagerView, Report,
    ReportView, SessionEvent,
};
use crate::decoder::{decode_spec, lemma_payload_without_identifier_is_rejected, ID_KEY};
use crate::json::json_text;
use vstd::utf8::{decode_utf8, valid_utf8};
use crate::dedup::DedupStore;
use crate::watchdog::{stale_at, STALE_AFTER_SECONDS};
use vstd::prelude::*;

verus! {

/// Seconds between a failed session and the next connection attempt.
pub const RECONNECT_DELAY_SECONDS: u64 = 5;

/// What the program reports to the service.
#[derive(Clone, Debug, PartialEq, Eq)]
pub enum Event {
    /// The program is ready for the first connection attempt.
    Start,
    /// The delay that the service asked for has passed.
    BackoffElapsed,
    /// Something happened in the session.
    Session(SessionEvent),
}

/// What the program is to do next. Its outcome is the next event.
#[derive(Clone, Debug, PartialEq, Eq)]
pub enum Command {
    /// Open a connection and subscribe; then report whether the
    /// subscription was accepted.
    Connect(ConnectRequest),
    /// Wait for the next event of the broker and report it. A program that
    /// ends the wait after a while reports a quiet poll.
    Poll,
    /// Drop the connection, wait this many seconds, and report that the
    /// delay has passed.
    Backoff(u64),
}

/// A [`Command`] as the contracts see it.
pub enum CommandView {
    Connect(ConnectRequestView),
    Poll,
    Backoff(u64),
}

impl View for Command {
    type V = CommandView;

    open spec fn view(&self) -> CommandView {
        match self {
            Command::Connect(request) => CommandView::Connect(request@),
            Command::Poll => CommandView::Poll,
            Command::Backoff(seconds) => CommandView::Backoff(*seconds),
        }
    }
}

/// The answer to an event: what to do next, and what to make known.
#[derive(Clone, Debug, PartialEq, Eq)]
pub struct Outcome {
    pub command: Command,
    pub report: Report,
}

/// An [`Outcome`] as the contracts see it.
pub struct OutcomeView {
    pub command: CommandView,
    pub report: ReportView,
}

impl View for Outcome {
    type V = OutcomeView;

    open spec fn view(&self) -> OutcomeView {
        OutcomeView { command: self.command@, report: self.report@ }
    }
}

/// The configuration and the session that is under way.
pub struct SubscriberService {
    config: BrokerConfig,
    manager: ConnectionManager,
}

/// A [`SubscriberService`] as the contracts see it.
pub struct ServiceView {
    pub config: BrokerConfigView,
    pub manager: ManagerView,
}

impl View for SubscriberService {
    type V = ServiceView;

    closed spec fn view(&self) -> ServiceView {
        ServiceView { config: self.config@, manager: self.manager@ }
    }
}

/// A step of the service: the service and the store afterwards, and the
/// outcome.
pub struct ServiceStep {
    pub service: ServiceView,
    pub seen: Set<Seq<char>>,
    pub outcome: OutcomeView,
}

/// The command that keeps a session in `state` going: a poll, or for a
/// session that failed the delay before the next attempt.
pub open spec fn command_after(state: ConnectionState) -> CommandView {
    if state == ConnectionState::ReconnectPending {
        CommandView::Backoff(RECONNECT_DELAY_SECONDS)
    } else {
        CommandView::Poll
    }
}

/// The service while it connects.
pub open spec fn connecting(service: ServiceView) -> ServiceView {
    ServiceView {
        config: service.config,
        manager: moved_to(service.manager, ConnectionState::Connecting),
    }
}

/// The outcome that begins a connection attempt: the request is made from
/// the configuration, the same one for every attempt.
pub open spec fn attempt(config: BrokerConfigView) -> OutcomeView {
    OutcomeView {
        command: CommandView::Connect(connect_request_of(config)),
        report: ReportView::Connecting,
    }
}

/// The transition function of the service.
///
/// The first attempt begins on `Start`, every later one when the delay
/// after a failed session has passed. What happens in a session is left to
/// its manager; the service adds the command that follows. `None` where the
/// event is not waited for: nothing changes then.
pub open spec fn service_step(
    service: ServiceView,
    seen: Set<Seq<char>>,
    event: Event,
    now: u128,
) -> Option<ServiceStep> {
    match event {
        Event::Start => if service.manager.state == ConnectionState::Disconnected {
            Some(
                ServiceStep {
                    service: connecting(service),
                    seen,
                    outcome: attempt(service.config),
                },
            )
        } else {
            None
        },
        Event::BackoffElapsed => if service.manager.state == ConnectionState::ReconnectPending {
            Some(
                ServiceStep {
                    service: connecting(service),
                    seen,
                    outcome: attempt(service.config),
                },
            )
        } else {
            None
        },
        Event::Session(happened) => match session_step(service.manager, seen, happened, now) {
            None => None,
            Some(step) => Some(
                ServiceStep {
                    service: ServiceView { config: service.config, manager: step.manager },
                    seen: step.seen,
                    outcome: OutcomeView {
                        command: command_after(step.manager.state),
                        report: step.report,
                    },
                },
            ),
        },
    }
}

impl SubscriberService {
    /// A service for `config` that has attempted nothing.
    pub fn new(config: BrokerConfig) -> (service: Self)
        ensures
            service@ == (ServiceView {
                config: config@,
                manager: ManagerView { state: ConnectionState::Disconnected, last_activity: 0 },
            }),
    {
        SubscriberService { config, manager: ConnectionManager::new() }
    }

    /// The state of the session under way.
    pub fn state(&self) -> (state: ConnectionState)
        ensures
            state == self@.manager.state,
    {
        self.manager.state()
    }

    /// The configuration that the service was made with.
    pub fn config(&self) -> (config: &BrokerConfig)
        ensures
            config@ == self@.config,
    {
        &self.config
    }

    /// Begins a connection attempt.
    fn begin(&mut self) -> (outcome: Outcome)
        ensures
            final(self)@ == connecting(old(self)@),
            outcome@ == attempt(old(self)@.config),
    {
        let request = self.manager.connect(&self.config);
        Outcome { command: Command::Connect(request), report: Report::Connecting }
    }

    /// Takes in an event at clock reading `now` and says what to do next.
    ///
    /// `None` means that the service was not waiting for this event and that
    /// nothing changed: the command that was given still stands.
    pub fn handle(&mut self, event: &Event, now: u128, store: &mut DedupStore) -> (outcome: Option<
        Outcome,
    >)
        ensures
            match service_step(old(self)@, old(store)@, *event, now) {
                None => outcome is None && final(self)@ == old(self)@ && final(store)@ == old(
                    store,
                )@,
                Some(step) => outcome is Some && outcome->0@ == step.outcome && final(self)@
                    == step.service && final(store)@ == step.seen,
            },
    {
        match event {
            Event::Start => {
                if self.manager.state() == ConnectionState::Disconnected {
                    Some(self.begin())
                } else {
                    None
                }
            },
            Event::BackoffElapsed => {
                if self.manager.state() == ConnectionState::ReconnectPending {
                    Some(self.begin())
                } else {
                    None
                }
            },
            Event::Session(happened) => {
                match self.manager.handle(happened, now, store) {
                    None => None,
                    Some(report) => {
                        let command = if self.manager.state() == ConnectionState::ReconnectPending {
                            Command::Backoff(RECONNECT_DELAY_SECONDS)
                        } else {
                            Command::Poll
                        };
                        Some(Outcome { command, report })
                    },
                }
            },
        }
    }
}

/// A payload that does not decode is dropped: the service reports the one
/// decode failure, forwards nothing, leaves the store as it was and keeps
/// polling.
pub proof fn lemma_undecodable_payload_is_dropped(
    service: ServiceView,
    seen: Set<Seq<char>>,
    payload: Vec<u8>,
    now: u128,
)
    requires
        service.manager.state == ConnectionState::Subscribed,
        decode_spec(payload@) is Err,
    ensures
        service_step(service, seen, Event::Session(SessionEvent::Publish(payload)), now) is Some,
        ({
            let step = service_step(
                service,
                seen,
                Event::Session(SessionEvent::Publish(payload)),
                now,
            )->0;
            &&& step.outcome.report == ReportView::DecodeFailed(decode_spec(payload@)->Err_0)
            &&& step.outcome.command == CommandView::Poll
            &&& step.seen == seen
            &&& step.service.manager.state == ConnectionState::Subscribed
        }),
{
}

/// A payload whose document has no member `message_id` never reaches the
/// sink: the service reports one decode failure and forwards nothing.
pub proof fn lemma_payload_without_identifier_is_dropped(
    service: ServiceView,
    seen: Set<Seq<char>>,
    payload: Vec<u8>,
    now: u128,
)
    requires
        service.manager.state == ConnectionState::Subscribed,
        valid_utf8(payload@),
        json_text(decode_utf8(payload@)) is Some,
        !json_text(decode_utf8(payload@))->0.contains_key(ID_KEY@),
    ensures
        service_step(service, seen, Event::Session(SessionEvent::Publish(payload)), now) is Some,
        service_step(
            service,
            seen,
            Event::Session(SessionEvent::Publish(payload)),
            now,
        )->0.outcome.report is DecodeFailed,
        service_step(service, seen, Event::Session(SessionEvent::Publish(payload)), now)->0.seen
            == seen,
{
    lemma_payload_without_identifier_is_rejected(payload@);
    lemma_undecodable_payload_is_dropped(service, seen, payload, now);
}

/// A payload published twice in a row is forwarded at most once: the first
/// is forwarded exactly when its identifier is new, the second is always
/// dropped as a duplicate and changes nothing in the store.
pub proof fn lemma_repeated_payload_is_dropped(
    service: ServiceView,
    seen: Set<Seq<char>>,
    payload: Vec<u8>,
    now: u128,
    later: u128,
)
    requires
        service.manager.state == ConnectionState::Subscribed,
        decode_spec(payload@) is Ok,
    ensures
        ({
            let event = Event::Session(SessionEvent::Publish(payload));
            let decoded = decode_spec(payload@)->Ok_0;
            let first = service_step(service, seen, event, now);
            let second = service_step(first->0.service, first->0.seen, event, later);
            &&& first is Some
            &&& second is Some
            &&& first->0.outcome.report == if seen.contains(decoded.message_id) {
                ReportView::DuplicateDropped(decoded.message_id)
            } else {
                ReportView::Forwarded(decoded)
            }
            &&& second->0.outcome.report == ReportView::DuplicateDropped(decoded.message_id)
            &&& second->0.seen == first->0.seen
        }),
{
}

/// When a poll ends quietly and the broker has been silent for longer than
/// the watchdog allows, the service gives the session up and asks for the
/// fixed delay; when the delay has passed it asks for a fresh connection,
/// made from the configuration.
pub proof fn lemma_silence_ends_in_a_fresh_attempt(
    service: ServiceView,
    seen: Set<Seq<char>>,
    now: u128,
    later: u128,
)
    requires
        service.manager.state == ConnectionState::Subscribed,
        stale_at(service.manager.last_activity, now, STALE_AFTER_SECONDS),
    ensures
        ({
            let given_up = service_step(service, seen, Event::Session(SessionEvent::Quiet), now);
            let again = service_step(
                given_up->0.service,
                given_up->0.seen,
                Event::BackoffElapsed,
                later,
            );
            &&& given_up is Some
            &&& given_up->0.outcome.report == ReportView::Stale
            &&& given_up->0.outcome.command == CommandView::Backoff(RECONNECT_DELAY_SECONDS)
            &&& given_up->0.service.manager.state == ConnectionState::ReconnectPending
            &&& again is Some
            &&& again->0.outcome.command == CommandView::Connect(
                connect_request_of(service.config),
            )
            &&& again->0.service.manager.state == ConnectionState::Connecting
            &&& again->0.seen == seen
        }),
{
}

/// Every session that fails, for whatever reason and however often, is
/// followed by the same fixed delay and then by a fresh attempt with the
/// same request. There is no growing delay and no last attempt.
pub proof fn lemma_failed_session_is_attempted_again(
    service: ServiceView,
    seen: Set<Seq<char>>,
    happened: SessionEvent,
    now: u128,
    later: u128,
)
    requires
        service_step(service, seen, Event::Session(happened), now) is Some,
        service_step(service, seen, Event::Session(happened), now)->0.service.manager.state
            == ConnectionState::ReconnectPending,
    ensures
        ({
            let failed = service_step(service, seen, Event::Session(happened), now)->0;
            let again = service_step(failed.service, failed.seen, Event::BackoffElapsed, later);
            &&& failed.outcome.command == CommandView::Backoff(RECONNECT_DELAY_SECONDS)
            &&& again is Some
            &&& again->0.outcome == attempt(service.config)
            &&& again->0.service.manager.state == ConnectionState::Connecting
            &&& again->0.seen == failed.seen
        }),
{
}

/// A refused subscription and every failure of a subscribed session give the
/// session up.
pub proof fn lemma_failures_give_the_session_up(
    service: ServiceView,
    seen: Set<Seq<char>>,
    happened: SessionEvent,
    now: u128,
)
    requires
        awaited(service.manager.state, happened),
        happened is SubscribeFailed || happened is TransportError || happened is EndOfStream,
    ensures
        service_step(service, seen, Event::Session(happened), now) is Some,
        service_step(service, seen, Event::Session(happened), now)->0.service.manager.state
            == ConnectionState::ReconnectPending,
        service_step(service, seen, Event::Session(happened), now)->0.seen == seen,
{
}

/// The service asks for a poll only of a subscribed session that is not
/// stale at that moment, and for a delay only of the fixed length.
pub proof fn lemma_commands_fit_the_state(
    service: ServiceView,
    seen: Set<Seq<char>>,
    event: Event,
    now: u128,
)
    requires
        service_step(service, seen, event, now) is Some,
    ensures
        ({
            let step = service_step(service, seen, event, now)->0;
            &&& step.service.config == service.config
            &&& step.service.manager.state != ConnectionState::Disconnected
            &&& step.outcome.command is Connect <==> step.service.manager.state
                == ConnectionState::Connecting
            &&& step.outcome.command is Poll <==> step.service.manager.state
                == ConnectionState::Subscribed
            &&& step.outcome.command is Poll ==> !stale_at(
                step.service.manager.last_activity,
                now,
                STALE_AFTER_SECONDS,
            )
            &&& step.outcome.command is Backoff <==> step.service.manager.state
                == ConnectionState::ReconnectPending
            &&& step.outcome.command is Backoff ==> step.outcome.command == CommandView::Backoff(
                RECONNECT_DELAY_SECONDS,
            )
        }),
{
}

/// The store changes only by forwarding: a step that forwards an event adds
/// the identifier of that event, which was not there before, and every other
/// step leaves the store as it was. So between two resets the store holds,
/// beyond what it held at first, exactly the identifiers of the forwarded
/// events.
pub proof fn lemma_store_holds_what_was_forwarded(
    service: ServiceView,
    seen: Set<Seq<char>>,
    event: Event,
    now: u128,
)
    requires
        service_step(service, seen, event, now) is Some,
    ensures
        ({
            let step = service_step(service, seen, event, now)->0;
            match step.outcome.report {
                ReportView::Forwarded(forwarded) => !seen.contains(forwarded.message_id)
                    && step.seen == seen.insert(forwarded.message_id),
                ReportView::DuplicateDropped(id) => seen.contains(id) && step.seen == seen,
                _ => step.seen == seen,
            }
        }),
{
}

} // verus!
