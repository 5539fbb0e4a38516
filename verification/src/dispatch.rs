//! The event dispatcher: a fixed table from event kind to handler, and the
//! handling of one event.

use crate::alert::alert_for;
use crate::config::{Config, ConfigView};
use crate::event::{Event, EventKind, EventView};
use crate::forward::{Forward, ForwardState, ForwardView};
use crate::log::{LogRecord, LogRecordView};
use vstd::prelude::*;

verus! {

/// What is done with an event.
#[derive(Clone, Copy, Debug, PartialEq, Eq, Structural)]
pub enum Handler {
    /// Log who the session is logged in as, and nothing else.
    LogIdentity,
    /// Log that the event occurred, and nothing else.
    LogOccurrence,
    /// Log the message and hand it to the alert forwarder.
    ForwardAlert,
}

/// The dispatch table. Presence updates keep their entry although the
/// minimal interest set never has them delivered.
pub open spec fn spec_handler_for(kind: EventKind) -> Handler {
    match kind {
        EventKind::Ready => Handler::LogIdentity,
        EventKind::PresenceUpdate => Handler::LogOccurrence,
        EventKind::Message => Handler::ForwardAlert,
    }
}

/// Looks `kind` up in the dispatch table.
pub fn handler_for(kind: EventKind) -> (handler: Handler)
    ensures
        handler == spec_handler_for(kind),
{
    match kind {
        EventKind::Ready => Handler::LogIdentity,
        EventKind::PresenceUpdate => Handler::LogOccurrence,
        EventKind::Message => Handler::ForwardAlert,
    }
}

/// The handling of one event: the handler that took it, the record it
/// logs, and the forward it starts, if it starts one.
#[derive(Debug, PartialEq, Eq)]
pub struct Handling {
    pub handler: Handler,
    pub log: LogRecord,
    pub forward: Option<Forward>,
}

/// The mathematical content of a [`Handling`].
pub struct HandlingView {
    pub handler: Handler,
    pub log: LogRecordView,
    pub forward: Option<ForwardView>,
}

impl View for Handling {
    type V = HandlingView;

    open spec fn view(&self) -> HandlingView {
        HandlingView {
            handler: self.handler,
            log: self.log@,
            forward: match self.forward {
                Some(forward) => Some(forward@),
                None => None,
            },
        }
    }
}

/// What dispatching `event` under `config` yields. The handler is the one
/// the table names for the event's kind. A message starts exactly one
/// forward, whose request is the alert request of `config` and which waits
/// to be sent; no other event starts one.
pub open spec fn spec_dispatch(config: ConfigView, event: EventView) -> HandlingView {
    match event {
        EventView::Ready { user_name } => HandlingView {
            handler: spec_handler_for(EventKind::Ready),
            log: LogRecordView::Connected { user_name },
            forward: None,
        },
        EventView::PresenceUpdate => HandlingView {
            handler: spec_handler_for(EventKind::PresenceUpdate),
            log: LogRecordView::PresenceUpdated,
            forward: None,
        },
        EventView::Message { content, channel_id } => HandlingView {
            handler: spec_handler_for(EventKind::Message),
            log: LogRecordView::MessageReceived { content, channel_id },
            forward: Some(
                ForwardView { request: alert_for(config), state: ForwardState::Sending },
            ),
        },
    }
}

/// Dispatches one event. Each call stands alone: it reads `config`, takes
/// the event, and touches nothing else.
pub fn dispatch(config: &Config, event: Event) -> (handling: Handling)
    ensures
        handling@ == spec_dispatch(config@, event@),
{
    match event {
        Event::Ready { user_name } => Handling {
            handler: handler_for(EventKind::Ready),
            log: LogRecord::Connected { user_name },
            forward: None,
        },
        Event::PresenceUpdate => Handling {
            handler: handler_for(EventKind::PresenceUpdate),
            log: LogRecord::PresenceUpdated,
            forward: None,
        },
        Event::Message { content, channel_id } => Handling {
            handler: handler_for(EventKind::Message),
            log: LogRecord::MessageReceived { content, channel_id },
            forward: Some(Forward::begin(config)),
        },
    }
}

} // verus!
