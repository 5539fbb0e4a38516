//! Startup of the relay: from the three configured values to a session
//! that is connecting, or to the error that stops the process.

use crate::config::{spec_load, Config, ConfigError, ConfigView};
use crate::session::{
    Backoff, BackoffView, Session, SessionAction, SessionEvent, SessionView, STANDARD_CEILING_MS,
    STANDARD_INITIAL_MS,
};
use vstd::prelude::*;

verus! {

/// The standard backoff, as a mathematical value.
pub open spec fn standard_backoff() -> BackoffView {
    BackoffView { initial_ms: STANDARD_INITIAL_MS, ceiling_ms: STANDARD_CEILING_MS }
}

/// What starting the relay yields. A configuration that does not load
/// yields its error and nothing else. One that loads yields the
/// configuration, the session after its `Start`, and the action that the
/// start asks for.
pub open spec fn spec_start(
    token: Option<Seq<char>>,
    api_key: Option<Seq<char>>,
    backend_url: Option<Seq<char>>,
) -> Result<(ConfigView, SessionView, SessionAction), ConfigError> {
    match spec_load(token, api_key, backend_url) {
        Err(error) => Err(error),
        Ok(config) => {
            let started = SessionView::fresh(config, standard_backoff()).handle(
                SessionEvent::Start,
            );
            Ok((config, started.0, started.1))
        },
    }
}

/// Starts the relay from the three values as they were found, `None`
/// standing for a value that was not supplied. On an error no session
/// exists.
pub fn start(
    token: Option<String>,
    api_key: Option<String>,
    backend_url: Option<String>,
) -> (started: Result<(Config, Session, SessionAction), ConfigError>)
    ensures
        match started {
            Ok((config, session, action)) => spec_start(
                token.deep_view(),
                api_key.deep_view(),
                backend_url.deep_view(),
            ) == Ok::<(ConfigView, SessionView, SessionAction), ConfigError>(
                (config@, session@, action),
            ),
            Err(error) => spec_start(
                token.deep_view(),
                api_key.deep_view(),
                backend_url.deep_view(),
            ) == Err::<(ConfigView, SessionView, SessionAction), ConfigError>(error),
        },
{
    match Config::load(token, api_key, backend_url) {
        Err(error) => Err(error),
        Ok(config) => {
            let mut session = Session::new(&config, Backoff::standard());
            let action = session.handle(SessionEvent::Start);
            Ok((config, session, action))
        },
    }
}

} // verus!
