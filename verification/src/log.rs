//! Log records: what the relay reports, on which stream, and in which words.

use crate::text::{decimal, decimal_text};
use vstd::prelude::*;
use vstd::string::*;

verus! {

/// The stream a log line is written to.
#[derive(Clone, Copy, Debug, PartialEq, Eq, Structural)]
pub enum Stream {
    /// Standard output: progress and successes.
    Stdout,
    /// Standard error: failures.
    Stderr,
}

/// One thing the relay reports.
#[derive(Debug, PartialEq, Eq)]
pub enum LogRecord {
    /// The handshake finished; the session is logged in as `user_name`.
    Connected { user_name: String },
    /// A presence change was received.
    PresenceUpdated,
    /// A message was received.
    MessageReceived { content: String, channel_id: u64 },
    /// The backend accepted an alert.
    AlertSent,
    /// The backend answered an alert with a status other than success.
    AlertRejected { status: u16, body: String },
    /// An alert never reached the backend.
    AlertUndelivered { reason: String },
    /// The gateway connection failed.
    ConnectionFailed { reason: String },
}

/// The mathematical content of a [`LogRecord`].
pub enum LogRecordView {
    Connected { user_name: Seq<char> },
    PresenceUpdated,
    MessageReceived { content: Seq<char>, channel_id: u64 },
    AlertSent,
    AlertRejected { status: u16, body: Seq<char> },
    AlertUndelivered { reason: Seq<char> },
    ConnectionFailed { reason: Seq<char> },
}

impl View for LogRecord {
    type V = LogRecordView;

    open spec fn view(&self) -> LogRecordView {
        match self {
            LogRecord::Connected { user_name } => LogRecordView::Connected { user_name: user_name@ },
            LogRecord::PresenceUpdated => LogRecordView::PresenceUpdated,
            LogRecord::MessageReceived { content, channel_id } => LogRecordView::MessageReceived {
                content: content@,
                channel_id: *channel_id,
            },
            LogRecord::AlertSent => LogRecordView::AlertSent,
            LogRecord::AlertRejected { status, body } => LogRecordView::AlertRejected {
                status: *status,
                body: body@,
            },
            LogRecord::AlertUndelivered { reason } => LogRecordView::AlertUndelivered {
                reason: reason@,
            },
            LogRecord::ConnectionFailed { reason } => LogRecordView::ConnectionFailed {
                reason: reason@,
            },
        }
    }
}

/// The text that the standard library's `Debug` formatting writes for a
/// string: the string in double quotes, with the characters that the
/// standard library escapes written as escapes. The text is named here,
/// not spelled out.
pub uninterp spec fn debug_text(text: Seq<char>) -> Seq<char>;

/// Writes `text` with `format!("{:?}", ..)`, that is with the `Debug`
/// formatting of `str`.
///
/// Trusted, not proved: the result depends on `text` alone, so it is
/// [`debug_text`] of it.
#[verifier::external_body]
fn quote(text: &str) -> (quoted: String)
    ensures
        quoted@ == debug_text(text@),
{
    format!("{:?}", text)
}

/// The line for a message: its text and the channel it was posted in.
pub open spec fn message_line(content: Seq<char>, channel_id: u64) -> Seq<char> {
    "Received message: "@ + content + " at channel "@ + decimal_text(channel_id as nat)
}

/// The line for an alert that the backend refused, given the body already
/// quoted: the status in base ten, a space, the quoted body.
pub open spec fn rejection_line(status: u16, quoted_body: Seq<char>) -> Seq<char> {
    "Failed to send alert: "@ + decimal_text(status as nat) + " "@ + quoted_body
}

impl LogRecordView {
    /// The stream the record belongs on: failures go to standard error,
    /// everything else to standard output.
    pub open spec fn stream(self) -> Stream {
        match self {
            LogRecordView::AlertRejected { .. } => Stream::Stderr,
            LogRecordView::AlertUndelivered { .. } => Stream::Stderr,
            _ => Stream::Stdout,
        }
    }

    /// The line the record is written as.
    pub open spec fn text(self) -> Seq<char> {
        match self {
            LogRecordView::Connected { user_name } => user_name + " is connected!"@,
            LogRecordView::PresenceUpdated => "Presence Update"@,
            LogRecordView::MessageReceived { content, channel_id } => message_line(
                content,
                channel_id,
            ),
            LogRecordView::AlertSent => "Alert sent successfully"@,
            LogRecordView::AlertRejected { status, body } => rejection_line(
                status,
                debug_text(body),
            ),
            LogRecordView::AlertUndelivered { reason } => "Failed to send alert: "@ + reason,
            LogRecordView::ConnectionFailed { reason } => "Client error: "@ + reason,
        }
    }
}

/// Writes the line for an alert that the backend refused, given the body
/// already quoted.
pub fn render_rejection(status: u16, quoted_body: &str) -> (line: String)
    ensures
        line@ == rejection_line(status, quoted_body@),
{
    let mut line = String::from_str("Failed to send alert: ");
    let number = decimal(status as u64);
    line.append(number.as_str());
    line.append(" ");
    line.append(quoted_body);
    line
}

impl DeepView for LogRecord {
    type V = LogRecordView;

    open spec fn deep_view(&self) -> LogRecordView {
        self@
    }
}

impl Clone for LogRecord {
    fn clone(&self) -> (copy: Self)
        ensures
            copy@ == self@,
    {
        match self {
            LogRecord::Connected { user_name } => LogRecord::Connected {
                user_name: user_name.clone(),
            },
            LogRecord::PresenceUpdated => LogRecord::PresenceUpdated,
            LogRecord::MessageReceived { content, channel_id } => LogRecord::MessageReceived {
                content: content.clone(),
                channel_id: *channel_id,
            },
            LogRecord::AlertSent => LogRecord::AlertSent,
            LogRecord::AlertRejected { status, body } => LogRecord::AlertRejected {
                status: *status,
                body: body.clone(),
            },
            LogRecord::AlertUndelivered { reason } => LogRecord::AlertUndelivered {
                reason: reason.clone(),
            },
            LogRecord::ConnectionFailed { reason } => LogRecord::ConnectionFailed {
                reason: reason.clone(),
            },
        }
    }
}

impl LogRecord {
    /// The stream the record belongs on.
    pub fn stream(&self) -> (stream: Stream)
        ensures
            stream == self@.stream(),
    {
        match self {
            LogRecord::AlertRejected { .. } => Stream::Stderr,
            LogRecord::AlertUndelivered { .. } => Stream::Stderr,
            _ => Stream::Stdout,
        }
    }

    /// The line the record is written as.
    pub fn text(&self) -> (line: String)
        ensures
            line@ == self@.text(),
    {
        match self {
            LogRecord::Connected { user_name } => {
                let mut line = user_name.clone();
                line.append(" is connected!");
                line
            },
            LogRecord::PresenceUpdated => String::from_str("Presence Update"),
            LogRecord::MessageReceived { content, channel_id } => {
                let mut line = String::from_str("Received message: ");
                line.append(content.as_str());
                line.append(" at channel ");
                let number = decimal(*channel_id);
                line.append(number.as_str());
                line
            },
            LogRecord::AlertSent => String::from_str("Alert sent successfully"),
            LogRecord::AlertRejected { status, body } => {
                let quoted = quote(body.as_str());
                render_rejection(*status, quoted.as_str())
            },
            LogRecord::AlertUndelivered { reason } => {
                let mut line = String::from_str("Failed to send alert: ");
                line.append(reason.as_str());
                line
            },
            LogRecord::ConnectionFailed { reason } => {
                let mut line = String::from_str("Client error: ");
                line.append(reason.as_str());
                line
            },
        }
    }
}

} // verus!
