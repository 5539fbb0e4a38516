//! The alert forwarder: one send per message, its outcome, and what is
//! logged about it. A forward never retries and knows nothing of the session.

use crate::alert::{alert_for, AlertRequest, AlertRequestView};
use crate::config::{is_header_text, Config};
use crate::log::{LogRecord, LogRecordView};
use vstd::prelude::*;

verus! {

/// Why a forward failed. Either way the failure is logged and dropped; it
/// is never a reason to stop.
#[derive(Clone, Copy, Debug, PartialEq, Eq, Structural)]
pub enum ForwardError {
    /// The request did not reach the backend.
    Undelivered,
    /// The backend answered with `status`, which is no success.
    Rejected { status: u16 },
}

/// How a forward ended.
#[derive(Clone, Copy, Debug, PartialEq, Eq, Structural)]
pub enum ForwardOutcome {
    /// The backend answered with a success status.
    Success,
    /// The request did not get through, or the backend refused it.
    Failure { error: ForwardError },
}

impl ForwardOutcome {
    /// Whether the alert was delivered and accepted.
    pub open spec fn spec_is_success(self) -> bool {
        self is Success
    }

    /// Whether the alert was delivered and accepted.
    pub fn is_success(&self) -> (success: bool)
        ensures
            success == self.spec_is_success(),
    {
        match self {
            ForwardOutcome::Success => true,
            ForwardOutcome::Failure { .. } => false,
        }
    }
}

/// Where a forward stands.
#[derive(Clone, Copy, Debug, PartialEq, Eq, Structural)]
pub enum ForwardState {
    /// The request is to be sent, or is in flight.
    Sending,
    /// The backend answered with `status`, which is no success; the body of
    /// the answer is to be read.
    ReadingBody { status: u16 },
    /// The forward is over.
    Finished { outcome: ForwardOutcome },
}

/// What the transport reports back to a forward.
#[derive(Debug, PartialEq, Eq)]
pub enum ForwardInput {
    /// The request could not be delivered.
    TransportFailed { reason: String },
    /// The backend answered with `status`.
    Responded { status: u16 },
    /// The body of the answer was read as text.
    BodyRead { text: String },
    /// The body of the answer could not be read.
    BodyUnreadable,
}

/// The mathematical content of a [`ForwardInput`].
pub enum ForwardInputView {
    TransportFailed { reason: Seq<char> },
    Responded { status: u16 },
    BodyRead { text: Seq<char> },
    BodyUnreadable,
}

impl View for ForwardInput {
    type V = ForwardInputView;

    open spec fn view(&self) -> ForwardInputView {
        match self {
            ForwardInput::TransportFailed { reason } => ForwardInputView::TransportFailed {
                reason: reason@,
            },
            ForwardInput::Responded { status } => ForwardInputView::Responded { status: *status },
            ForwardInput::BodyRead { text } => ForwardInputView::BodyRead { text: text@ },
            ForwardInput::BodyUnreadable => ForwardInputView::BodyUnreadable,
        }
    }
}

/// Whether `status` is an HTTP success status: any of `200..=299`.
pub open spec fn is_success_status(status: u16) -> bool {
    200 <= status < 300
}

/// Asks `reqwest::StatusCode` whether `status` is a success.
///
/// Trusted, not proved: `StatusCode::from_u16` accepts exactly `100..=999`,
/// and `StatusCode::is_success` holds exactly of `200..=299`. A number that
/// is no status code is no success.
#[verifier::external_body]
fn status_is_success(status: u16) -> (success: bool)
    ensures
        success == is_success_status(status),
{
    match reqwest::StatusCode::from_u16(status) {
        Ok(code) => code.is_success(),
        Err(_) => false,
    }
}

/// The transition of a forward: the state after `input`, and the record to
/// log, if any.
///
/// A failed delivery ends the forward in failure. A success status ends it
/// in success. Any other status asks for the body, and the body, read or
/// not, ends the forward in failure; an unreadable body counts as empty.
/// An input that the state does not wait for changes nothing.
pub open spec fn spec_step(state: ForwardState, input: ForwardInputView) -> (
    ForwardState,
    Option<LogRecordView>,
) {
    match (state, input) {
        (ForwardState::Sending, ForwardInputView::TransportFailed { reason }) => (
            ForwardState::Finished {
                outcome: ForwardOutcome::Failure { error: ForwardError::Undelivered },
            },
            Some(LogRecordView::AlertUndelivered { reason }),
        ),
        (ForwardState::Sending, ForwardInputView::Responded { status }) => if is_success_status(
            status,
        ) {
            (
                ForwardState::Finished { outcome: ForwardOutcome::Success },
                Some(LogRecordView::AlertSent),
            )
        } else {
            (ForwardState::ReadingBody { status }, None)
        },
        (ForwardState::ReadingBody { status }, ForwardInputView::BodyRead { text }) => (
            ForwardState::Finished {
                outcome: ForwardOutcome::Failure { error: ForwardError::Rejected { status } },
            },
            Some(LogRecordView::AlertRejected { status, body: text }),
        ),
        (ForwardState::ReadingBody { status }, ForwardInputView::BodyUnreadable) => (
            ForwardState::Finished {
                outcome: ForwardOutcome::Failure { error: ForwardError::Rejected { status } },
            },
            Some(LogRecordView::AlertRejected { status, body: Seq::empty() }),
        ),
        _ => (state, None),
    }
}

/// One forward: the request it sends and where it stands.
#[derive(Debug, PartialEq, Eq)]
pub struct Forward {
    request: AlertRequest,
    state: ForwardState,
}

/// The mathematical content of a [`Forward`].
pub struct ForwardView {
    pub request: AlertRequestView,
    pub state: ForwardState,
}

impl View for Forward {
    type V = ForwardView;

    closed spec fn view(&self) -> ForwardView {
        ForwardView { request: self.request@, state: self.state }
    }
}

impl Forward {
    /// Starts a forward for `config`: the request is built and waits to be
    /// sent.
    pub fn begin(config: &Config) -> (forward: Forward)
        ensures
            forward@.request == alert_for(config@),
            forward@.state == ForwardState::Sending,
            is_header_text(forward@.request.header_value),
    {
        Forward { request: AlertRequest::new(config), state: ForwardState::Sending }
    }

    /// The request this forward sends.
    pub fn request(&self) -> (request: &AlertRequest)
        ensures
            request@ == self@.request,
    {
        &self.request
    }

    /// Where the forward stands.
    pub fn state(&self) -> (state: ForwardState)
        ensures
            state == self@.state,
    {
        self.state
    }

    /// How the forward ended, once it has.
    pub fn outcome(&self) -> (outcome: Option<ForwardOutcome>)
        ensures
            outcome == match self@.state {
                ForwardState::Finished { outcome } => Some(outcome),
                _ => None,
            },
    {
        match self.state {
            ForwardState::Finished { outcome } => Some(outcome),
            _ => None,
        }
    }

    /// Takes what the transport reports and moves the forward on. Returns
    /// the record to log, if the step calls for one. The request never
    /// changes.
    pub fn advance(&mut self, input: ForwardInput) -> (log: Option<LogRecord>)
        ensures
            (final(self)@.state, log.deep_view()) == spec_step(old(self)@.state, input@),
            final(self)@.request == old(self)@.request,
    {
        match (self.state, input) {
            (ForwardState::Sending, ForwardInput::TransportFailed { reason }) => {
                self.state = ForwardState::Finished {
                    outcome: ForwardOutcome::Failure { error: ForwardError::Undelivered },
                };
                Some(LogRecord::AlertUndelivered { reason })
            },
            (ForwardState::Sending, ForwardInput::Responded { status }) => {
                if status_is_success(status) {
                    self.state = ForwardState::Finished { outcome: ForwardOutcome::Success };
                    Some(LogRecord::AlertSent)
                } else {
                    self.state = ForwardState::ReadingBody { status };
                    None
                }
            },
            (ForwardState::ReadingBody { status }, ForwardInput::BodyRead { text }) => {
                self.state = ForwardState::Finished {
                    outcome: ForwardOutcome::Failure { error: ForwardError::Rejected { status } },
                };
                Some(LogRecord::AlertRejected { status, body: text })
            },
            (ForwardState::ReadingBody { status }, ForwardInput::BodyUnreadable) => {
                self.state = ForwardState::Finished {
                    outcome: ForwardOutcome::Failure { error: ForwardError::Rejected { status } },
                };
                Some(LogRecord::AlertRejected { status, body: String::new() })
            },
            _ => None,
        }
    }
}

} // verus!
