use alert_relay::alert::{AlertRequest, Method};
use alert_relay::config::Config;
use alert_relay::dispatch::{dispatch, handler_for, Handler};
use alert_relay::event::{Event, EventKind};
use alert_relay::forward::ForwardState;
use alert_relay::log::LogRecord;

fn config() -> Config {
    Config::load(
        Some("token".to_string()),
        Some("secret-key".to_string()),
        Some("https://backend.test".to_string()),
    )
    .unwrap()
}

#[test]
fn events_know_their_kind() {
    assert_eq!(Event::Ready { user_name: "bot".to_string() }.kind(), EventKind::Ready);
    assert_eq!(
        Event::Message { content: "hi".to_string(), channel_id: 1 }.kind(),
        EventKind::Message
    );
    assert_eq!(Event::PresenceUpdate.kind(), EventKind::PresenceUpdate);
}

#[test]
fn events_clone_to_equal_events() {
    let events = vec![
        Event::Ready { user_name: "bot".to_string() },
        Event::Message { content: "hi".to_string(), channel_id: 9 },
        Event::PresenceUpdate,
    ];
    for event in events {
        assert_eq!(event.clone(), event);
    }
}

#[test]
fn table_maps_every_kind() {
    assert_eq!(handler_for(EventKind::Ready), Handler::LogIdentity);
    assert_eq!(handler_for(EventKind::PresenceUpdate), Handler::LogOccurrence);
    assert_eq!(handler_for(EventKind::Message), Handler::ForwardAlert);
}

#[test]
fn ready_logs_identity_only() {
    let handling = dispatch(&config(), Event::Ready { user_name: "relay-bot".to_string() });
    assert_eq!(handling.handler, Handler::LogIdentity);
    assert_eq!(handling.log, LogRecord::Connected { user_name: "relay-bot".to_string() });
    assert_eq!(handling.log.text(), "relay-bot is connected!");
    assert!(handling.forward.is_none());
}

#[test]
fn presence_update_logs_occurrence_only() {
    let handling = dispatch(&config(), Event::PresenceUpdate);
    assert_eq!(handling.handler, Handler::LogOccurrence);
    assert_eq!(handling.log, LogRecord::PresenceUpdated);
    assert_eq!(handling.log.text(), "Presence Update");
    assert!(handling.forward.is_none());
}

#[test]
fn message_starts_one_forward_with_the_configured_request() {
    let handling =
        dispatch(&config(), Event::Message { content: "fire!".to_string(), channel_id: 77 });
    assert_eq!(handling.handler, Handler::ForwardAlert);
    assert_eq!(
        handling.log,
        LogRecord::MessageReceived { content: "fire!".to_string(), channel_id: 77 }
    );
    assert_eq!(handling.log.text(), "Received message: fire! at channel 77");
    let forward = handling.forward.unwrap();
    assert_eq!(forward.state(), ForwardState::Sending);
    assert_eq!(forward.outcome(), None);
    let request = forward.request();
    assert_eq!(request.method, Method::Post);
    assert_eq!(request.url, "https://backend.test/alert");
    assert_eq!(request.header_name, "x-api-key");
    assert_eq!(request.header_value, "secret-key");
}

#[test]
fn every_message_gets_its_own_forward() {
    let config = config();
    let mut forwards = Vec::new();
    for channel_id in 0..5u64 {
        let handling =
            dispatch(&config, Event::Message { content: format!("m{}", channel_id), channel_id });
        forwards.push(handling.forward.unwrap());
    }
    assert_eq!(forwards.len(), 5);
    let expected = AlertRequest::new(&config);
    for forward in &forwards {
        assert_eq!(forward.request(), &expected);
        assert_eq!(forward.state(), ForwardState::Sending);
    }
}

#[test]
fn request_appends_the_path_to_the_base_url_as_it_is() {
    let config = Config::load(
        Some("t".to_string()),
        Some("k".to_string()),
        Some("http://localhost:8080/".to_string()),
    )
    .unwrap();
    let request = AlertRequest::new(&config);
    assert_eq!(request.url, "http://localhost:8080//alert");
    let config =
        Config::load(Some("t".to_string()), Some("k".to_string()), Some(String::new())).unwrap();
    assert_eq!(AlertRequest::new(&config).url, "/alert");
}

#[test]
fn request_header_is_accepted_by_the_http_client() {
    let config = Config::load(
        Some("t".to_string()),
        Some("k\u{e9}y with\ttab".to_string()),
        Some("http://b".to_string()),
    )
    .unwrap();
    let request = AlertRequest::new(&config);
    assert!(reqwest::header::HeaderValue::from_str(&request.header_value).is_ok());
    assert!(reqwest::header::HeaderName::from_bytes(request.header_name.as_bytes()).is_ok());
    assert_eq!(request.clone(), request);
}
