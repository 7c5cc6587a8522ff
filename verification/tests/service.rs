use notify_listener::config::{BrokerConfig, ConnectRequest, Delivery};
use notify_listener::connection::{ConnectionManager, ConnectionState, Report, SessionEvent};
use notify_listener::decoder::DecodeError;
use notify_listener::dedup::DedupStore;
use notify_listener::event::NotificationEvent;
use notify_listener::service::{
    Command, Event, Outcome, SubscriberService, RECONNECT_DELAY_SECONDS,
};
use notify_listener::sink::toast_request;
use notify_listener::watchdog::NANOS_PER_SECOND;

fn config() -> BrokerConfig {
    BrokerConfig {
        mqtt_server: "localhost".to_string(),
        mqtt_port: 1883,
        mqtt_username: None,
        mqtt_password: None,
        mqtt_topic: "notify".to_string(),
        cleaning_cycle: 60,
    }
}

fn request() -> ConnectRequest {
    ConnectRequest {
        client_id: "rumqtt-sync".to_string(),
        server: "localhost".to_string(),
        port: 1883,
        keep_alive_seconds: 5,
        request_capacity: 10,
        credentials: None,
        topic: "notify".to_string(),
        delivery: Delivery::AtMostOnce,
    }
}

fn publish(payload: &str) -> Event {
    Event::Session(SessionEvent::Publish(payload.as_bytes().to_vec()))
}

fn subscribed(now: u128, store: &mut DedupStore) -> SubscriberService {
    let mut service = SubscriberService::new(config());
    assert!(service.handle(&Event::Start, now, store).is_some());
    let outcome = service.handle(&Event::Session(SessionEvent::SubscribeSucceeded), now, store);
    assert_eq!(outcome, Some(Outcome { command: Command::Poll, report: Report::Subscribed }));
    service
}

#[test]
fn fixed_delay_is_five_seconds() {
    assert_eq!(RECONNECT_DELAY_SECONDS, 5);
}

#[test]
fn new_service_is_disconnected_and_keeps_its_configuration() {
    let service = SubscriberService::new(config());
    assert_eq!(service.state(), ConnectionState::Disconnected);
    assert_eq!(service.config(), &config());
    assert_eq!(service.config().cleaning_cycle, 60);
}

#[test]
fn start_asks_for_a_connection() {
    let mut store = DedupStore::new();
    let mut service = SubscriberService::new(config());
    let outcome = service.handle(&Event::Start, 0, &mut store);
    assert_eq!(
        outcome,
        Some(Outcome { command: Command::Connect(request()), report: Report::Connecting })
    );
    assert_eq!(service.state(), ConnectionState::Connecting);
}

#[test]
fn identifier_alone_is_forwarded_with_the_defaults() {
    let mut store = DedupStore::new();
    let mut service = subscribed(0, &mut store);
    assert_eq!(
        service.handle(&publish(r#"{"message_id":"abc"}"#), 1, &mut store),
        Some(Outcome {
            command: Command::Poll,
            report: Report::Forwarded(NotificationEvent {
                title: "Notification".to_string(),
                body_message: "Details".to_string(),
                message_id: "abc".to_string(),
                logo: None,
            }),
        })
    );
}

#[test]
fn repeated_publish_reaches_the_sink_once() {
    let mut store = DedupStore::new();
    let mut service = subscribed(0, &mut store);
    let payload = r#"{"message_id":"1","title":"Hi"}"#;

    let first = service.handle(&publish(payload), 1, &mut store).expect("a publish is awaited");
    assert_eq!(first.command, Command::Poll);
    let shown = match first.report {
        Report::Forwarded(event) => toast_request(event),
        other => panic!("the first publish is forwarded, not {other:?}"),
    };
    assert_eq!(shown.title, "Hi");
    assert_eq!(shown.body_message, "Details");
    assert_eq!(shown.logo_file, "default_toast_logo.png");

    let second = service.handle(&publish(payload), 2, &mut store);
    assert_eq!(
        second,
        Some(Outcome {
            command: Command::Poll,
            report: Report::DuplicateDropped("1".to_string()),
        })
    );
    assert_eq!(service.state(), ConnectionState::Subscribed);
}

#[test]
fn subscription_that_fails_twice_is_retried_at_the_fixed_delay() {
    let mut store = DedupStore::new();
    let mut service = SubscriberService::new(config());
    let connect = Some(Outcome { command: Command::Connect(request()), report: Report::Connecting });
    let backoff = Some(Outcome { command: Command::Backoff(5), report: Report::SubscribeFailed });
    let failed = Event::Session(SessionEvent::SubscribeFailed);

    assert_eq!(service.handle(&Event::Start, 0, &mut store), connect);
    assert_eq!(service.handle(&failed, 1, &mut store), backoff);
    assert_eq!(service.state(), ConnectionState::ReconnectPending);
    assert_eq!(service.handle(&Event::BackoffElapsed, 2, &mut store), connect);
    assert_eq!(service.state(), ConnectionState::Connecting);
    assert_eq!(service.handle(&failed, 3, &mut store), backoff);
    assert_eq!(service.state(), ConnectionState::ReconnectPending);
    assert_eq!(service.handle(&Event::BackoffElapsed, 4, &mut store), connect);
    assert_eq!(
        service.handle(&Event::Session(SessionEvent::SubscribeSucceeded), 5, &mut store),
        Some(Outcome { command: Command::Poll, report: Report::Subscribed })
    );
    assert_eq!(service.state(), ConnectionState::Subscribed);
}

#[test]
fn delay_does_not_grow_with_the_number_of_failures() {
    let mut store = DedupStore::new();
    let mut service = SubscriberService::new(config());
    assert!(service.handle(&Event::Start, 0, &mut store).is_some());
    for attempt in 0..50u128 {
        let failed = service
            .handle(&Event::Session(SessionEvent::SubscribeFailed), attempt, &mut store)
            .expect("the answer to the subscription is awaited");
        assert_eq!(failed.command, Command::Backoff(5));
        let again = service
            .handle(&Event::BackoffElapsed, attempt, &mut store)
            .expect("the end of the delay is awaited");
        assert_eq!(again.command, Command::Connect(request()));
    }
}

#[test]
fn silence_beyond_the_timeout_forces_a_fresh_connection() {
    let mut store = DedupStore::new();
    let start: u128 = 17;
    let mut service = subscribed(start, &mut store);
    let quiet = Event::Session(SessionEvent::Quiet);

    let at_limit = start + 300 * NANOS_PER_SECOND;
    assert_eq!(
        service.handle(&quiet, at_limit, &mut store),
        Some(Outcome { command: Command::Poll, report: Report::Waiting })
    );
    assert_eq!(service.state(), ConnectionState::Subscribed);

    assert_eq!(
        service.handle(&quiet, at_limit + 1, &mut store),
        Some(Outcome { command: Command::Backoff(5), report: Report::Stale })
    );
    assert_eq!(service.state(), ConnectionState::ReconnectPending);

    assert_eq!(
        service.handle(&Event::BackoffElapsed, at_limit + 2, &mut store),
        Some(Outcome { command: Command::Connect(request()), report: Report::Connecting })
    );
    assert_eq!(service.state(), ConnectionState::Connecting);
}

#[test]
fn every_broker_event_counts_as_activity() {
    let mut store = DedupStore::new();
    let mut service = subscribed(0, &mut store);
    let quiet = Event::Session(SessionEvent::Quiet);
    let second = NANOS_PER_SECOND;

    assert_eq!(
        service.handle(&Event::Session(SessionEvent::Protocol), 200 * second, &mut store),
        Some(Outcome { command: Command::Poll, report: Report::ProtocolEvent })
    );
    assert_eq!(
        service.handle(&quiet, 450 * second, &mut store).map(|o| o.report),
        Some(Report::Waiting)
    );
    // A payload that does not decode is activity all the same.
    assert_eq!(
        service.handle(&publish("not json"), 500 * second, &mut store).map(|o| o.report),
        Some(Report::DecodeFailed(DecodeError::InvalidJson))
    );
    assert_eq!(
        service.handle(&quiet, 800 * second, &mut store).map(|o| o.report),
        Some(Report::Waiting)
    );
    // A quiet poll is no activity.
    assert_eq!(
        service.handle(&quiet, 800 * second + 1, &mut store).map(|o| o.report),
        Some(Report::Stale)
    );
}

#[test]
fn payload_without_identifier_is_reported_once_and_dropped() {
    let mut store = DedupStore::new();
    let mut service = subscribed(0, &mut store);
    let outcome = service.handle(&publish(r#"{"title":"Hi","body_message":"x"}"#), 1, &mut store);
    assert_eq!(
        outcome,
        Some(Outcome {
            command: Command::Poll,
            report: Report::DecodeFailed(DecodeError::MissingMessageId),
        })
    );
    assert_eq!(service.state(), ConnectionState::Subscribed);
}

#[test]
fn payload_that_is_not_utf8_is_reported_and_dropped() {
    let mut store = DedupStore::new();
    let mut service = subscribed(0, &mut store);
    let event = Event::Session(SessionEvent::Publish(vec![0x80, 0x81]));
    assert_eq!(
        service.handle(&event, 1, &mut store),
        Some(Outcome {
            command: Command::Poll,
            report: Report::DecodeFailed(DecodeError::InvalidUtf8),
        })
    );
}

#[test]
fn failed_decoding_marks_nothing() {
    let mut store = DedupStore::new();
    let mut service = subscribed(0, &mut store);
    assert!(service.handle(&publish(r#"{"message_id":7}"#), 1, &mut store).is_some());
    assert!(service.handle(&publish(r#"{"message_id":"7","title":3}"#), 2, &mut store).is_some());
    let outcome = service.handle(&publish(r#"{"message_id":"7"}"#), 3, &mut store);
    assert_eq!(
        outcome.map(|o| o.report),
        Some(Report::Forwarded(NotificationEvent {
            title: "Notification".to_string(),
            body_message: "Details".to_string(),
            message_id: "7".to_string(),
            logo: None,
        }))
    );
}

#[test]
fn distinct_identifiers_are_forwarded_in_the_order_of_arrival() {
    let mut store = DedupStore::new();
    let mut service = subscribed(0, &mut store);
    let mut forwarded = Vec::new();
    let mut dropped = Vec::new();
    for (n, id) in ["b", "a", "b", "c", "a", "d"].into_iter().enumerate() {
        let payload = format!(r#"{{"message_id":"{id}","title":"{n}"}}"#);
        match service.handle(&publish(&payload), n as u128, &mut store).map(|o| o.report) {
            Some(Report::Forwarded(event)) => forwarded.push((event.message_id, event.title)),
            Some(Report::DuplicateDropped(id)) => dropped.push(id),
            other => panic!("unexpected {other:?}"),
        }
    }
    let pair = |id: &str, title: &str| (id.to_string(), title.to_string());
    assert_eq!(forwarded, vec![pair("b", "0"), pair("a", "1"), pair("c", "3"), pair("d", "5")]);
    assert_eq!(dropped, vec!["b".to_string(), "a".to_string()]);
}

#[test]
fn reset_between_two_publishes_lets_the_second_through() {
    let mut store = DedupStore::new();
    let mut service = subscribed(0, &mut store);
    let payload = r#"{"message_id":"again"}"#;
    assert!(matches!(
        service.handle(&publish(payload), 1, &mut store).map(|o| o.report),
        Some(Report::Forwarded(_))
    ));
    store.clear();
    assert!(matches!(
        service.handle(&publish(payload), 2, &mut store).map(|o| o.report),
        Some(Report::Forwarded(_))
    ));
    assert!(matches!(
        service.handle(&publish(payload), 3, &mut store).map(|o| o.report),
        Some(Report::DuplicateDropped(_))
    ));
}

#[test]
fn dedup_store_outlives_a_reconnect() {
    let mut store = DedupStore::new();
    let mut service = subscribed(0, &mut store);
    let payload = r#"{"message_id":"kept"}"#;
    assert!(matches!(
        service.handle(&publish(payload), 1, &mut store).map(|o| o.report),
        Some(Report::Forwarded(_))
    ));
    assert_eq!(
        service.handle(&Event::Session(SessionEvent::EndOfStream), 2, &mut store),
        Some(Outcome { command: Command::Backoff(5), report: Report::EndOfStream })
    );
    assert!(service.handle(&Event::BackoffElapsed, 3, &mut store).is_some());
    assert!(service
        .handle(&Event::Session(SessionEvent::SubscribeSucceeded), 4, &mut store)
        .is_some());
    assert!(matches!(
        service.handle(&publish(payload), 5, &mut store).map(|o| o.report),
        Some(Report::DuplicateDropped(_))
    ));
}

#[test]
fn transport_error_and_end_of_stream_give_the_session_up() {
    for (event, report) in [
        (SessionEvent::TransportError, Report::TransportError),
        (SessionEvent::EndOfStream, Report::EndOfStream),
    ] {
        let mut store = DedupStore::new();
        let mut service = subscribed(0, &mut store);
        assert_eq!(
            service.handle(&Event::Session(event), 1, &mut store),
            Some(Outcome { command: Command::Backoff(5), report })
        );
        assert_eq!(service.state(), ConnectionState::ReconnectPending);
    }
}

#[test]
fn event_that_is_not_awaited_changes_nothing() {
    let mut store = DedupStore::new();
    let mut service = SubscriberService::new(config());
    let payload = publish(r#"{"message_id":"early"}"#);

    // Disconnected: only the start is awaited.
    assert_eq!(service.handle(&Event::BackoffElapsed, 0, &mut store), None);
    assert_eq!(service.handle(&payload, 0, &mut store), None);
    assert_eq!(service.handle(&Event::Session(SessionEvent::Quiet), 0, &mut store), None);
    assert_eq!(service.state(), ConnectionState::Disconnected);

    // Connecting: only the answer to the subscription is awaited.
    assert!(service.handle(&Event::Start, 0, &mut store).is_some());
    assert_eq!(service.handle(&Event::Start, 0, &mut store), None);
    assert_eq!(service.handle(&payload, 0, &mut store), None);
    assert_eq!(service.handle(&Event::Session(SessionEvent::EndOfStream), 0, &mut store), None);
    assert_eq!(service.state(), ConnectionState::Connecting);

    // Subscribed: what a poll brings is awaited.
    assert!(service
        .handle(&Event::Session(SessionEvent::SubscribeSucceeded), 0, &mut store)
        .is_some());
    assert_eq!(service.handle(&Event::Start, 0, &mut store), None);
    assert_eq!(service.handle(&Event::BackoffElapsed, 0, &mut store), None);
    assert_eq!(
        service.handle(&Event::Session(SessionEvent::SubscribeFailed), 0, &mut store),
        None
    );
    assert_eq!(service.state(), ConnectionState::Subscribed);

    // The payload that was refused before was not marked.
    assert!(matches!(
        service.handle(&payload, 1, &mut store).map(|o| o.report),
        Some(Report::Forwarded(_))
    ));

    // Waiting to reconnect: only the end of the delay is awaited.
    assert!(service.handle(&Event::Session(SessionEvent::TransportError), 2, &mut store).is_some());
    assert_eq!(service.handle(&payload, 3, &mut store), None);
    assert_eq!(service.handle(&Event::Session(SessionEvent::Quiet), 3, &mut store), None);
    assert_eq!(service.state(), ConnectionState::ReconnectPending);
}

#[test]
fn manager_alone_follows_a_session() {
    let mut store = DedupStore::new();
    let mut manager = ConnectionManager::new();
    assert_eq!(manager.state(), ConnectionState::Disconnected);
    assert_eq!(manager.handle(&SessionEvent::SubscribeSucceeded, 0, &mut store), None);

    assert_eq!(manager.connect(&config()), request());
    assert_eq!(manager.state(), ConnectionState::Connecting);
    assert_eq!(
        manager.handle(&SessionEvent::SubscribeSucceeded, 10, &mut store),
        Some(Report::Subscribed)
    );
    assert_eq!(manager.state(), ConnectionState::Subscribed);
    assert_eq!(
        manager.handle(&SessionEvent::Quiet, 10 + 300 * NANOS_PER_SECOND, &mut store),
        Some(Report::Waiting)
    );
    assert_eq!(
        manager.handle(&SessionEvent::Quiet, 11 + 300 * NANOS_PER_SECOND, &mut store),
        Some(Report::Stale)
    );
    assert_eq!(manager.state(), ConnectionState::ReconnectPending);
    assert_eq!(manager.handle(&SessionEvent::Quiet, 0, &mut store), None);

    assert_eq!(manager.connect(&config()), request());
    assert_eq!(manager.state(), ConnectionState::Connecting);
}

#[test]
fn credentials_reach_every_connection_attempt() {
    let mut store = DedupStore::new();
    let mut with_login = config();
    with_login.mqtt_username = Some("user".to_string());
    with_login.mqtt_password = Some("secret".to_string());
    let mut service = SubscriberService::new(with_login);
    for round in 0..3u128 {
        let event = if round == 0 { Event::Start } else { Event::BackoffElapsed };
        let outcome = service.handle(&event, round, &mut store).expect("the event is awaited");
        match outcome.command {
            Command::Connect(request) => {
                let login = request.credentials.expect("both parts are configured");
                assert_eq!(login.username, "user");
                assert_eq!(login.password, "secret");
                assert_eq!(request.keep_alive_seconds, 5);
            }
            other => panic!("a connection is asked for, not {other:?}"),
        }
        assert!(service
            .handle(&Event::Session(SessionEvent::SubscribeFailed), round, &mut store)
            .is_some());
    }
}
