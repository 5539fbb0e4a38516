use alert_relay::config::ConfigError;
use alert_relay::interest::InterestSet;
use alert_relay::relay::start;
use alert_relay::session::{Backoff, SessionAction, SessionEvent, SessionState};

fn some(text: &str) -> Option<String> {
    Some(text.to_string())
}

#[test]
fn valid_configuration_starts_and_reaches_connected() {
    let (config, mut session, action) =
        start(some("gateway-token"), some("secret-key"), some("https://backend.test")).unwrap();
    assert_eq!(config.token(), "gateway-token");
    assert_eq!(config.api_key(), "secret-key");
    assert_eq!(config.backend_url(), "https://backend.test");
    assert_eq!(action, SessionAction::Connect);
    assert_eq!(session.state(), SessionState::Connecting);
    assert!(!session.is_stopped());
    assert_eq!(session.token(), "gateway-token");
    assert_eq!(session.interest(), InterestSet::minimal());
    assert_eq!(session.backoff(), Backoff::standard());
    assert_eq!(session.handle(SessionEvent::HandshakeCompleted), SessionAction::AnnounceReady);
    assert_eq!(session.state(), SessionState::Connected);
}

#[test]
fn missing_token_stops_startup() {
    let started = start(None, some("secret-key"), some("https://backend.test"));
    assert_eq!(started.err(), Some(ConfigError::MissingToken));
}

#[test]
fn missing_api_key_stops_startup() {
    let started = start(some("gateway-token"), None, some("https://backend.test"));
    assert_eq!(started.err(), Some(ConfigError::MissingApiKey));
}

#[test]
fn missing_backend_url_stops_startup() {
    let started = start(some("gateway-token"), some("secret-key"), None);
    assert_eq!(started.err(), Some(ConfigError::MissingBackendUrl));
}

#[test]
fn malformed_api_key_stops_startup() {
    let started = start(some("gateway-token"), some("secret\nkey"), some("https://backend.test"));
    assert_eq!(started.err(), Some(ConfigError::MalformedApiKey));
}

#[test]
fn nothing_configured_stops_startup_at_the_token() {
    assert_eq!(start(None, None, None).err(), Some(ConfigError::MissingToken));
}
