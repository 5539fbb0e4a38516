//! Startup configuration: the three required values and the rule that the
//! API key must be usable as an HTTP header value.

use vstd::prelude::*;
use vstd::string::*;

verus! {

/// Why a configuration was refused. Every variant is fatal to startup.
#[derive(Clone, Copy, Debug, PartialEq, Eq, Structural)]
pub enum ConfigError {
    /// No session token was supplied.
    MissingToken,
    /// No backend API key was supplied.
    MissingApiKey,
    /// The backend API key cannot be sent as an HTTP header value.
    MalformedApiKey,
    /// No backend base URL was supplied.
    MissingBackendUrl,
}

impl ConfigError {
    /// The message that explains this error to an operator.
    pub open spec fn spec_message(self) -> Seq<char> {
        match self {
            ConfigError::MissingToken => "Expected a token in the environment"@,
            ConfigError::MissingApiKey => "Expected a BACKEND_API_KEY in the environment"@,
            ConfigError::MalformedApiKey => "Failed to parse API key"@,
            ConfigError::MissingBackendUrl => "Expected a BACKEND_URL in the environment"@,
        }
    }

    /// The message that explains this error to an operator.
    pub fn message(&self) -> (text: String)
        ensures
            text@ == self.spec_message(),
    {
        match self {
            ConfigError::MissingToken => String::from_str("Expected a token in the environment"),
            ConfigError::MissingApiKey => String::from_str(
                "Expected a BACKEND_API_KEY in the environment",
            ),
            ConfigError::MalformedApiKey => String::from_str("Failed to parse API key"),
            ConfigError::MissingBackendUrl => String::from_str(
                "Expected a BACKEND_URL in the environment",
            ),
        }
    }
}

/// Whether `c` may occur in an HTTP header value: a tab, or any character
/// from the space upwards except DEL.
pub open spec fn is_header_char(c: char) -> bool {
    c == '\t' || (c as u32 >= 32 && c as u32 != 127)
}

/// Whether every character of `text` may occur in an HTTP header value.
pub open spec fn is_header_text(text: Seq<char>) -> bool {
    forall|i: int| 0 <= i < text.len() ==> is_header_char(#[trigger] text[i])
}

/// The error of `reqwest::header::HeaderValue::from_str`. It is carried
/// through unopened: nothing is claimed of what it holds.
#[verifier::external_type_specification]
#[verifier::external_body]
pub struct ExInvalidHeaderValue(reqwest::header::InvalidHeaderValue);

/// Parses `text` with `reqwest::header::HeaderValue::from_str` and keeps
/// only whether it was accepted.
///
/// Trusted, not proved: that function walks the UTF-8 bytes of `text` and
/// refuses it exactly when some byte is below 32 and no tab, or is 127. The
/// bytes of a character beyond ASCII are all at least 128, so the rule on
/// bytes is the rule on characters of [`is_header_text`].
#[verifier::external_body]
fn parse_header_value(text: &str) -> (parsed: Result<(), reqwest::header::InvalidHeaderValue>)
    ensures
        parsed is Ok <==> is_header_text(text@),
{
    match reqwest::header::HeaderValue::from_str(text) {
        Ok(_) => Ok(()),
        Err(refusal) => Err(refusal),
    }
}

/// The mathematical content of a [`Config`].
pub struct ConfigView {
    pub token: Seq<char>,
    pub api_key: Seq<char>,
    pub backend_url: Seq<char>,
}

impl ConfigView {
    /// A configuration is well formed when its API key is header text.
    pub open spec fn wf(self) -> bool {
        is_header_text(self.api_key)
    }
}

/// What loading the three values yields: the first failing check decides,
/// in the order token, API key present, API key well formed, backend URL.
pub open spec fn spec_load(
    token: Option<Seq<char>>,
    api_key: Option<Seq<char>>,
    backend_url: Option<Seq<char>>,
) -> Result<ConfigView, ConfigError> {
    if token is None {
        Err(ConfigError::MissingToken)
    } else if api_key is None {
        Err(ConfigError::MissingApiKey)
    } else if !is_header_text(api_key->0) {
        Err(ConfigError::MalformedApiKey)
    } else if backend_url is None {
        Err(ConfigError::MissingBackendUrl)
    } else {
        Ok(ConfigView { token: token->0, api_key: api_key->0, backend_url: backend_url->0 })
    }
}

/// The immutable startup configuration. A value of this type always holds
/// an API key that is header text.
#[derive(Debug)]
pub struct Config {
    token: String,
    api_key: String,
    backend_url: String,
}

impl View for Config {
    type V = ConfigView;

    closed spec fn view(&self) -> ConfigView {
        ConfigView { token: self.token@, api_key: self.api_key@, backend_url: self.backend_url@ }
    }
}

impl Clone for Config {
    fn clone(&self) -> (copy: Self)
        ensures
            copy@ == self@,
    {
        proof {
            use_type_invariant(self);
        }
        Config {
            token: self.token.clone(),
            api_key: self.api_key.clone(),
            backend_url: self.backend_url.clone(),
        }
    }
}

impl Config {
    #[verifier::type_invariant]
    spec fn inv(self) -> bool {
        self@.wf()
    }

    /// Builds the configuration from the three values as they were found,
    /// `None` standing for a value that was not supplied.
    pub fn load(
        token: Option<String>,
        api_key: Option<String>,
        backend_url: Option<String>,
    ) -> (loaded: Result<Config, ConfigError>)
        ensures
            match loaded {
                Ok(config) => spec_load(
                    token.deep_view(),
                    api_key.deep_view(),
                    backend_url.deep_view(),
                ) == Ok::<ConfigView, ConfigError>(config@),
                Err(error) => spec_load(
                    token.deep_view(),
                    api_key.deep_view(),
                    backend_url.deep_view(),
                ) == Err::<ConfigView, ConfigError>(error),
            },
    {
        let token = match token {
            Some(token) => token,
            None => { return Err(ConfigError::MissingToken); },
        };
        let api_key = match api_key {
            Some(api_key) => api_key,
            None => { return Err(ConfigError::MissingApiKey); },
        };
        match parse_header_value(api_key.as_str()) {
            Ok(_) => {},
            Err(_) => { return Err(ConfigError::MalformedApiKey); },
        }
        let backend_url = match backend_url {
            Some(backend_url) => backend_url,
            None => { return Err(ConfigError::MissingBackendUrl); },
        };
        Ok(Config { token, api_key, backend_url })
    }

    /// The session token.
    pub fn token(&self) -> (token: &str)
        ensures
            token@ == self@.token,
    {
        self.token.as_str()
    }

    /// The backend API key. It is header text.
    pub fn api_key(&self) -> (api_key: &str)
        ensures
            api_key@ == self@.api_key,
            self@.wf(),
    {
        proof {
            use_type_invariant(self);
        }
        self.api_key.as_str()
    }

    /// The backend base URL.
    pub fn backend_url(&self) -> (backend_url: &str)
        ensures
            backend_url@ == self@.backend_url,
    {
        self.backend_url.as_str()
    }
}

} // verus!
