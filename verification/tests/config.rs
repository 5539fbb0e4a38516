use alert_relay::config::{Config, ConfigError};

fn some(text: &str) -> Option<String> {
    Some(text.to_string())
}

fn header_char_allowed(c: char) -> bool {
    c == '\t' || ((c as u32) >= 32 && (c as u32) != 127)
}

#[test]
fn load_keeps_the_three_values() {
    let config = Config::load(some("token-1"), some("key-1"), some("https://backend.test")).unwrap();
    assert_eq!(config.token(), "token-1");
    assert_eq!(config.api_key(), "key-1");
    assert_eq!(config.backend_url(), "https://backend.test");
}

#[test]
fn load_reports_a_missing_token() {
    let loaded = Config::load(None, some("key"), some("https://backend.test"));
    assert_eq!(loaded.unwrap_err(), ConfigError::MissingToken);
}

#[test]
fn load_reports_a_missing_api_key() {
    let loaded = Config::load(some("token"), None, some("https://backend.test"));
    assert_eq!(loaded.unwrap_err(), ConfigError::MissingApiKey);
}

#[test]
fn load_reports_a_missing_backend_url() {
    let loaded = Config::load(some("token"), some("key"), None);
    assert_eq!(loaded.unwrap_err(), ConfigError::MissingBackendUrl);
}

#[test]
fn load_reports_the_first_failing_check() {
    assert_eq!(Config::load(None, None, None).unwrap_err(), ConfigError::MissingToken);
    assert_eq!(Config::load(None, some("bad\nkey"), None).unwrap_err(), ConfigError::MissingToken);
    assert_eq!(Config::load(some("token"), None, None).unwrap_err(), ConfigError::MissingApiKey);
    assert_eq!(
        Config::load(some("token"), some("bad\nkey"), None).unwrap_err(),
        ConfigError::MalformedApiKey
    );
    assert_eq!(
        Config::load(some("token"), some("key"), None).unwrap_err(),
        ConfigError::MissingBackendUrl
    );
}

#[test]
fn load_refuses_an_api_key_with_a_line_break() {
    let loaded = Config::load(some("token"), some("abc\r\ndef"), some("https://backend.test"));
    assert_eq!(loaded.unwrap_err(), ConfigError::MalformedApiKey);
}

#[test]
fn load_refuses_an_api_key_with_a_control_character() {
    for bad in ["\u{0}", "a\u{1}", "\u{1f}b", "x\u{7f}y", "\u{8}"] {
        let loaded = Config::load(some("token"), some(bad), some("https://backend.test"));
        assert_eq!(loaded.unwrap_err(), ConfigError::MalformedApiKey);
    }
}

#[test]
fn load_accepts_tabs_spaces_and_text_beyond_ascii() {
    for good in ["", " ", "a\tb", "~", "s\u{e9}same", "\u{80}", "\u{1f511} key", "A1-b2_c3.d4"] {
        let config = Config::load(some("token"), some(good), some("https://backend.test")).unwrap();
        assert_eq!(config.api_key(), good);
    }
}

#[test]
fn load_accepts_empty_values_that_are_present() {
    let config = Config::load(some(""), some(""), some("")).unwrap();
    assert_eq!(config.token(), "");
    assert_eq!(config.api_key(), "");
    assert_eq!(config.backend_url(), "");
}

#[test]
fn load_judges_every_single_character_by_the_header_rule() {
    let mut candidates: Vec<char> = (0u32..=0x2ff).filter_map(char::from_u32).collect();
    candidates.extend(['\u{7ff}', '\u{800}', '\u{ffff}', '\u{10000}', '\u{10ffff}']);
    for c in candidates {
        let key: String = ['k', c, 'k'].iter().collect();
        let loaded = Config::load(some("token"), Some(key.clone()), some("https://backend.test"));
        if header_char_allowed(c) {
            assert_eq!(loaded.unwrap().api_key(), key);
        } else {
            assert_eq!(loaded.unwrap_err(), ConfigError::MalformedApiKey);
        }
    }
}

#[test]
fn load_agrees_with_the_header_value_parser() {
    for key in ["plain", "with space", "tab\there", "line\nbreak", "del\u{7f}", "caf\u{e9}", "nul\u{0}"] {
        let parsed = reqwest::header::HeaderValue::from_str(key).is_ok();
        let loaded = Config::load(some("token"), some(key), some("https://backend.test")).is_ok();
        assert_eq!(loaded, parsed);
    }
}

#[test]
fn clone_keeps_the_three_values() {
    let config = Config::load(some("token"), some("key"), some("https://backend.test")).unwrap();
    let copy = config.clone();
    assert_eq!(copy.token(), "token");
    assert_eq!(copy.api_key(), "key");
    assert_eq!(copy.backend_url(), "https://backend.test");
}

#[test]
fn messages_name_what_is_wrong() {
    assert_eq!(ConfigError::MissingToken.message(), "Expected a token in the environment");
    assert_eq!(
        ConfigError::MissingApiKey.message(),
        "Expected a BACKEND_API_KEY in the environment"
    );
    assert_eq!(ConfigError::MalformedApiKey.message(), "Failed to parse API key");
    assert_eq!(
        ConfigError::MissingBackendUrl.message(),
        "Expected a BACKEND_URL in the environment"
    );
}
