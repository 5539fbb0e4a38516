//! Events delivered by the gateway, as a closed set of kinds.

use vstd::prelude::*;

verus! {

/// The kind of a gateway event, without its payload.
#[derive(Clone, Copy, Debug, PartialEq, Eq, Structural)]
pub enum EventKind {
    /// The handshake finished and the session is usable.
    Ready,
    /// A message was posted in a subscribed channel.
    Message,
    /// A user's presence changed.
    PresenceUpdate,
}

/// One event received from the gateway.
#[derive(Debug, PartialEq, Eq)]
pub enum Event {
    /// The handshake finished; carries the name the session is logged in as.
    Ready { user_name: String },
    /// A message was posted; carries its text and the channel it was posted in.
    Message { content: String, channel_id: u64 },
    /// A user's presence changed.
    PresenceUpdate,
}

/// The mathematical content of an [`Event`].
pub enum EventView {
    Ready { user_name: Seq<char> },
    Message { content: Seq<char>, channel_id: u64 },
    PresenceUpdate,
}

impl EventView {
    /// The kind of this event.
    pub open spec fn kind(self) -> EventKind {
        match self {
            EventView::Ready { .. } => EventKind::Ready,
            EventView::Message { .. } => EventKind::Message,
            EventView::PresenceUpdate => EventKind::PresenceUpdate,
        }
    }
}

impl View for Event {
    type V = EventView;

    open spec fn view(&self) -> EventView {
        match self {
            Event::Ready { user_name } => EventView::Ready { user_name: user_name@ },
            Event::Message { content, channel_id } => EventView::Message {
                content: content@,
                channel_id: *channel_id,
            },
            Event::PresenceUpdate => EventView::PresenceUpdate,
        }
    }
}

impl Clone for Event {
    fn clone(&self) -> (copy: Self)
        ensures
            copy@ == self@,
    {
        match self {
            Event::Ready { user_name } => Event::Ready { user_name: user_name.clone() },
            Event::Message { content, channel_id } => Event::Message {
                content: content.clone(),
                channel_id: *channel_id,
            },
            Event::PresenceUpdate => Event::PresenceUpdate,
        }
    }
}

impl Event {
    /// The kind of this event.
    pub fn kind(&self) -> (kind: EventKind)
        ensures
            kind == self@.kind(),
    {
        match self {
            Event::Ready { .. } => EventKind::Ready,
            Event::Message { .. } => EventKind::Message,
            Event::PresenceUpdate => EventKind::PresenceUpdate,
        }
    }
}

} // verus!
