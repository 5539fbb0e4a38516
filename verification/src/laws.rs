//! What holds of the relay as a whole, proved from the definitions that the
//! contracts of the other modules are stated over.

use crate::alert::{AlertRequestView, Method};
use crate::config::{is_header_text, ConfigError, ConfigView};
use crate::dispatch::{spec_dispatch, spec_handler_for, Handler};
use crate::event::{EventKind, EventView};
use crate::forward::{
    is_success_status, spec_step, ForwardError, ForwardInputView, ForwardOutcome, ForwardState,
    ForwardView,
};
use crate::interest::InterestSet;
use crate::log::{debug_text, rejection_line, LogRecordView, Stream};
use crate::relay::{spec_start, standard_backoff};
use crate::session::{BackoffView, SessionAction, SessionEvent, SessionState, SessionView};
use vstd::arithmetic::power2::{lemma_pow2_pos, lemma_pow2_unfold, pow2};
use vstd::prelude::*;

verus! {

/// Startup succeeds on every valid configuration. When all three values are
/// present and the API key is header text, the relay starts: the
/// configuration holds the three values, the session is connecting with
/// the configured token and the minimal interest set, it asks for a
/// connection, and it is connected as soon as the gateway confirms the
/// handshake.
pub proof fn lemma_valid_configuration_reaches_connected(
    token: Seq<char>,
    api_key: Seq<char>,
    backend_url: Seq<char>,
)
    requires
        is_header_text(api_key),
    ensures
        spec_start(Some(token), Some(api_key), Some(backend_url)) matches Ok(started) && {
            &&& started.0 == ConfigView { token, api_key, backend_url }
            &&& started.1.wf()
            &&& started.1.state == SessionState::Connecting
            &&& started.1.token == token
            &&& started.1.interest == InterestSet::spec_minimal()
            &&& started.1.backoff == standard_backoff()
            &&& started.2 == SessionAction::Connect
            &&& started.1.handle(SessionEvent::HandshakeCompleted).0.state
                == SessionState::Connected
            &&& started.1.handle(SessionEvent::HandshakeCompleted).1
                == SessionAction::AnnounceReady
        },
{
}

/// Startup fails exactly on the configurations that miss a value or hold
/// an API key that is no header text, and then with a configuration error
/// and without a session. The first failing check names the error: token,
/// API key present, API key well formed, backend URL.
pub proof fn lemma_startup_fails_on_invalid_configuration(
    token: Option<Seq<char>>,
    api_key: Option<Seq<char>>,
    backend_url: Option<Seq<char>>,
)
    ensures
        spec_start(token, api_key, backend_url) is Err <==> (token is None || api_key is None
            || backend_url is None || !is_header_text(api_key->0)),
        token is None ==> spec_start(token, api_key, backend_url) == Err::<
            (ConfigView, SessionView, SessionAction),
            ConfigError,
        >(ConfigError::MissingToken),
        token is Some && api_key is None ==> spec_start(token, api_key, backend_url) == Err::<
            (ConfigView, SessionView, SessionAction),
            ConfigError,
        >(ConfigError::MissingApiKey),
        token is Some && api_key is Some && !is_header_text(api_key->0) ==> spec_start(
            token,
            api_key,
            backend_url,
        ) == Err::<(ConfigView, SessionView, SessionAction), ConfigError>(
            ConfigError::MalformedApiKey,
        ),
        token is Some && api_key is Some && is_header_text(api_key->0) && backend_url is None
            ==> spec_start(token, api_key, backend_url) == Err::<
            (ConfigView, SessionView, SessionAction),
            ConfigError,
        >(ConfigError::MissingBackendUrl),
{
}

/// Every message starts exactly one forward, and nothing else starts one.
/// The forward of a message waits to be sent, and its request is a `POST`
/// to the backend base URL followed by `/alert` that carries the configured
/// API key in the header `x-api-key`.
pub proof fn lemma_message_starts_one_forward(config: ConfigView, event: EventView)
    ensures
        event.kind() == EventKind::Message ==> spec_dispatch(config, event).forward == Some(
            ForwardView {
                request: AlertRequestView {
                    method: Method::Post,
                    url: config.backend_url + "/alert"@,
                    header_name: "x-api-key"@,
                    header_value: config.api_key,
                },
                state: ForwardState::Sending,
            },
        ),
        event.kind() != EventKind::Message ==> spec_dispatch(config, event).forward is None,
        spec_dispatch(config, event).handler == spec_handler_for(event.kind()),
        spec_dispatch(config, event).forward is Some <==> spec_dispatch(config, event).handler
            == Handler::ForwardAlert,
{
}

/// A success status ends a forward in success. Whatever status of
/// `200..=299` answers the request, the forward is over, reports success
/// and logs that the alert was sent, on standard output.
pub proof fn lemma_success_status_ends_in_success(status: u16)
    requires
        is_success_status(status),
    ensures
        spec_step(ForwardState::Sending, ForwardInputView::Responded { status }) == (
            ForwardState::Finished { outcome: ForwardOutcome::Success },
            Some(LogRecordView::AlertSent),
        ),
        LogRecordView::AlertSent.stream() == Stream::Stdout,
        LogRecordView::AlertSent.text() == "Alert sent successfully"@,
{
}

/// Any other status ends a forward in failure, with the body in the log.
/// The status asks for the body first and logs nothing yet; the body, read
/// or not, then ends the forward in failure and logs the status and the
/// quoted body on standard error. An unreadable body counts as empty.
pub proof fn lemma_refusal_ends_in_failure(status: u16, body: Option<Seq<char>>)
    requires
        !is_success_status(status),
    ensures
        spec_step(ForwardState::Sending, ForwardInputView::Responded { status }) == (
            ForwardState::ReadingBody { status },
            None::<LogRecordView>,
        ),
        ({
            let input = match body {
                Some(text) => ForwardInputView::BodyRead { text },
                None => ForwardInputView::BodyUnreadable,
            };
            let logged = match body {
                Some(text) => text,
                None => Seq::<char>::empty(),
            };
            let record = LogRecordView::AlertRejected { status, body: logged };
            &&& spec_step(ForwardState::ReadingBody { status }, input) == (
                ForwardState::Finished {
                    outcome: ForwardOutcome::Failure { error: ForwardError::Rejected { status } },
                },
                Some(record),
            )
            &&& record.stream() == Stream::Stderr
            &&& record.text() == rejection_line(status, debug_text(logged))
        }),
{
}

/// A request that cannot be delivered ends the forward in failure and logs
/// the reason on standard error.
pub proof fn lemma_transport_failure_ends_in_failure(reason: Seq<char>)
    ensures
        spec_step(ForwardState::Sending, ForwardInputView::TransportFailed { reason }) == (
            ForwardState::Finished {
                outcome: ForwardOutcome::Failure { error: ForwardError::Undelivered },
            },
            Some(LogRecordView::AlertUndelivered { reason }),
        ),
        (LogRecordView::AlertUndelivered { reason }).stream() == Stream::Stderr,
        (LogRecordView::AlertUndelivered { reason }).text() == "Failed to send alert: "@ + reason,
{
}

/// A forward never retries. Once it is over, no input moves it or makes it
/// log again; and no step ever takes a forward back to sending.
pub proof fn lemma_forward_never_retries(state: ForwardState, input: ForwardInputView)
    ensures
        state is Finished ==> spec_step(state, input) == (state, None::<LogRecordView>),
        state != ForwardState::Sending ==> spec_step(state, input).0 != ForwardState::Sending,
        spec_step(state, input).1 is Some ==> spec_step(state, input).0 is Finished,
{
}

/// No event changes what a session connects with. Whatever happens to a
/// well-formed session, it remains well formed and keeps its token, its
/// interest set and its backoff.
pub proof fn lemma_session_keeps_credentials(session: SessionView, event: SessionEvent)
    requires
        session.wf(),
    ensures
        session.handle(event).0.wf(),
        session.handle(event).0.token == session.token,
        session.handle(event).0.interest == session.interest,
        session.handle(event).0.backoff == session.backoff,
{
}

/// Shutdown is final. It disconnects a session whatever its state, and a
/// session that was shut down stays as it is and asks for nothing, whatever
/// happens to it afterwards.
pub proof fn lemma_shutdown_is_final(session: SessionView, event: SessionEvent)
    requires
        session.wf(),
    ensures
        session.handle(SessionEvent::Shutdown).0.state == SessionState::Disconnected,
        session.handle(SessionEvent::Shutdown).0.stopped,
        session.stopped ==> session.handle(event) == (session, SessionAction::Idle),
{
}

/// A wait is never shorter than the one before it, never longer than the
/// ceiling, and strictly longer than the one before it until the ceiling is
/// reached.
pub proof fn lemma_backoff_grows_to_ceiling(backoff: BackoffView, failures: nat)
    requires
        backoff.wf(),
    ensures
        backoff.nth_delay(0) == backoff.initial_ms,
        backoff.initial_ms <= backoff.nth_delay(failures) <= backoff.nth_delay(failures + 1)
            <= backoff.ceiling_ms,
        backoff.nth_delay(failures) < backoff.ceiling_ms ==> backoff.nth_delay(failures)
            < backoff.nth_delay(failures + 1),
        backoff.raised(backoff.nth_delay(failures) as u64) == backoff.nth_delay(failures + 1),
{
    lemma_pow2_pos(failures);
    lemma_pow2_unfold(failures + 1);
    assert(pow2(0) == 1) by {
        vstd::arithmetic::power2::lemma2_to64();
    }
    let first = backoff.initial_ms as int;
    let power = pow2(failures) as int;
    assert(first * power >= first) by (nonlinear_arith)
        requires
            first > 0,
            power >= 1,
    ;
    assert(first * (2 * power) == 2 * (first * power)) by (nonlinear_arith);
}

/// A session that loses its connection comes back by itself. From
/// `Connected`, after any number of failed rounds, the session is well
/// formed, holds the token, interest set and backoff it had, and answers
/// the next lost connection by waiting `nth_delay(failures)`, then by
/// connecting again; the handshake then makes it the session it was before
/// the first loss.
pub proof fn lemma_reconnects_with_growing_backoff(session: SessionView, failures: nat)
    requires
        session.wf(),
        session.state == SessionState::Connected,
    ensures
        ({
            let now = session.after_failures(failures);
            let lost = now.handle(SessionEvent::ConnectionLost);
            let retried = lost.0.handle(SessionEvent::BackoffElapsed);
            let back = retried.0.handle(SessionEvent::HandshakeCompleted);
            &&& now.wf()
            &&& now.state == if failures == 0 {
                SessionState::Connected
            } else {
                SessionState::Connecting
            }
            &&& now.token == session.token
            &&& now.interest == session.interest
            &&& now.backoff == session.backoff
            &&& now.next_delay_ms == session.backoff.nth_delay(failures)
            &&& lost.0.state == SessionState::Reconnecting
            &&& lost.1 == SessionAction::Wait { delay_ms: now.next_delay_ms }
            &&& retried.0.state == SessionState::Connecting
            &&& retried.1 == SessionAction::Connect
            &&& retried.0 == session.after_failures(failures + 1)
            &&& back.1 == SessionAction::AnnounceReady
            &&& back.0 == session
        }),
    decreases failures,
{
    if failures == 0 {
        lemma_backoff_grows_to_ceiling(session.backoff, 0);
    } else {
        let earlier = (failures - 1) as nat;
        lemma_reconnects_with_growing_backoff(session, earlier);
        lemma_backoff_grows_to_ceiling(session.backoff, earlier);
        lemma_backoff_grows_to_ceiling(session.backoff, failures);
    }
}

} // verus!
