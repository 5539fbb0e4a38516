//! The session manager: the lifecycle of the one gateway session, as a
//! transition function from state and event to next state and action.

use crate::config::{Config, ConfigView};
use crate::interest::InterestSet;
use vstd::arithmetic::power2::pow2;
use vstd::prelude::*;
use vstd::string::*;

verus! {

/// The connection state of a session.
#[derive(Clone, Copy, Debug, PartialEq, Eq, Structural)]
pub enum SessionState {
    /// No connection: before the start, and for good after a shutdown.
    Disconnected,
    /// A connection attempt is under way; authentication is in flight.
    Connecting,
    /// The handshake is done and events are flowing.
    Connected,
    /// The connection was lost; the session waits before it tries again.
    Reconnecting,
}

/// What can happen to a session.
#[derive(Clone, Copy, Debug, PartialEq, Eq, Structural)]
pub enum SessionEvent {
    /// The owner starts the session.
    Start,
    /// The gateway confirmed the handshake.
    HandshakeCompleted,
    /// Connecting, authenticating or the established transport failed.
    ConnectionLost,
    /// The wait before the next attempt is over.
    BackoffElapsed,
    /// The owner shuts the session down.
    Shutdown,
}

/// What the session asks its driver to do.
#[derive(Clone, Copy, Debug, PartialEq, Eq, Structural)]
pub enum SessionAction {
    /// Open a connection, authenticate with the session's token and declare
    /// the session's interest set.
    Connect,
    /// Wait `delay_ms` milliseconds, then report `BackoffElapsed`.
    Wait { delay_ms: u64 },
    /// Let the dispatcher know that the session is ready.
    AnnounceReady,
    /// Close the connection.
    Disconnect,
    /// Nothing.
    Idle,
}

/// The first wait of the standard backoff, in milliseconds.
pub const STANDARD_INITIAL_MS: u64 = 1000;

/// The longest wait of the standard backoff, in milliseconds.
pub const STANDARD_CEILING_MS: u64 = 60000;

/// The mathematical content of a [`Backoff`].
pub struct BackoffView {
    /// The wait before the first new attempt.
    pub initial_ms: u64,
    /// The bound that no wait exceeds.
    pub ceiling_ms: u64,
}

impl BackoffView {
    /// A backoff is well formed when its first wait is positive and not
    /// above its ceiling.
    pub open spec fn wf(self) -> bool {
        0 < self.initial_ms <= self.ceiling_ms
    }

    /// The wait that follows a wait of `delay_ms`: twice as long, but not
    /// above the ceiling.
    pub open spec fn raised(self, delay_ms: u64) -> u64 {
        if 2 * delay_ms >= self.ceiling_ms {
            self.ceiling_ms
        } else {
            (2 * delay_ms) as u64
        }
    }

    /// The wait that answers a lost connection after `failures` earlier
    /// ones in a row: the first wait doubled `failures` times, but not
    /// above the ceiling.
    pub open spec fn nth_delay(self, failures: nat) -> int {
        if self.initial_ms * pow2(failures) >= self.ceiling_ms {
            self.ceiling_ms as int
        } else {
            self.initial_ms * pow2(failures)
        }
    }
}

/// How long the session waits between connection attempts: the waits double
/// from a first wait up to a ceiling.
#[derive(Clone, Copy, Debug, PartialEq, Eq, Structural)]
pub struct Backoff {
    initial_ms: u64,
    ceiling_ms: u64,
}

impl View for Backoff {
    type V = BackoffView;

    closed spec fn view(&self) -> BackoffView {
        BackoffView { initial_ms: self.initial_ms, ceiling_ms: self.ceiling_ms }
    }
}

impl Backoff {
    #[verifier::type_invariant]
    spec fn inv(self) -> bool {
        self@.wf()
    }

    /// A backoff from `initial_ms` up to `ceiling_ms`, if that is well
    /// formed: `0 < initial_ms <= ceiling_ms`.
    pub fn new(initial_ms: u64, ceiling_ms: u64) -> (backoff: Option<Backoff>)
        ensures
            match backoff {
                Some(backoff) => backoff@ == (BackoffView { initial_ms, ceiling_ms })
                    && backoff@.wf(),
                None => !(BackoffView { initial_ms, ceiling_ms }).wf(),
            },
    {
        if 0 < initial_ms && initial_ms <= ceiling_ms {
            Some(Backoff { initial_ms, ceiling_ms })
        } else {
            None
        }
    }

    /// The standard backoff: from one second up to one minute.
    pub fn standard() -> (backoff: Backoff)
        ensures
            backoff@ == (BackoffView {
                initial_ms: STANDARD_INITIAL_MS,
                ceiling_ms: STANDARD_CEILING_MS,
            }),
            backoff@.wf(),
    {
        Backoff { initial_ms: STANDARD_INITIAL_MS, ceiling_ms: STANDARD_CEILING_MS }
    }

    /// The wait before the first new attempt, in milliseconds.
    pub fn initial_ms(&self) -> (ms: u64)
        ensures
            ms == self@.initial_ms,
            self@.wf(),
    {
        proof {
            use_type_invariant(self);
        }
        self.initial_ms
    }

    /// The bound that no wait exceeds, in milliseconds.
    pub fn ceiling_ms(&self) -> (ms: u64)
        ensures
            ms == self@.ceiling_ms,
            self@.wf(),
    {
        proof {
            use_type_invariant(self);
        }
        self.ceiling_ms
    }

    /// The wait that follows a wait of `delay_ms`.
    pub fn raised(&self, delay_ms: u64) -> (ms: u64)
        ensures
            ms == self@.raised(delay_ms),
    {
        if delay_ms >= self.ceiling_ms - self.ceiling_ms / 2 {
            self.ceiling_ms
        } else {
            delay_ms + delay_ms
        }
    }
}

/// The mathematical content of a [`Session`].
pub struct SessionView {
    /// The connection state.
    pub state: SessionState,
    /// Whether the session was shut down.
    pub stopped: bool,
    /// The credential the session authenticates with.
    pub token: Seq<char>,
    /// The interest set the session declares.
    pub interest: InterestSet,
    /// How the waits between attempts grow.
    pub backoff: BackoffView,
    /// The wait that the next lost connection will be answered with.
    pub next_delay_ms: u64,
}

impl SessionView {
    /// A session is well formed when its backoff is, its next wait lies
    /// between the first wait and the ceiling, a connected session has the
    /// first wait ahead, and a session that was shut down is disconnected.
    pub open spec fn wf(self) -> bool {
        &&& self.backoff.wf()
        &&& self.backoff.initial_ms <= self.next_delay_ms <= self.backoff.ceiling_ms
        &&& self.state == SessionState::Connected ==> self.next_delay_ms
            == self.backoff.initial_ms
        &&& self.stopped ==> self.state == SessionState::Disconnected
    }

    /// The session after `failures` rounds in a row of a lost connection
    /// and the wait that answers it.
    pub open spec fn after_failures(self, failures: nat) -> SessionView
        decreases failures,
    {
        if failures == 0 {
            self
        } else {
            self.after_failures((failures - 1) as nat).handle(SessionEvent::ConnectionLost).0.handle(
                SessionEvent::BackoffElapsed,
            ).0
        }
    }

    /// The session as it is before its start: disconnected, with the token
    /// of `config`, the minimal interest set, and the first wait ahead.
    pub open spec fn fresh(config: ConfigView, backoff: BackoffView) -> SessionView {
        SessionView {
            state: SessionState::Disconnected,
            stopped: false,
            token: config.token,
            interest: InterestSet::spec_minimal(),
            backoff,
            next_delay_ms: backoff.initial_ms,
        }
    }

    /// The transition function: the session after `event`, and the action
    /// it asks for.
    ///
    /// - `Shutdown` disconnects for good, whatever the state.
    /// - `Start` takes a session that was never shut down from
    ///   `Disconnected` to `Connecting`.
    /// - `HandshakeCompleted` takes `Connecting` to `Connected`, puts the
    ///   first wait ahead again and is announced; in `Connected`, where the
    ///   gateway client restored its connection by itself, it is announced
    ///   again.
    /// - `ConnectionLost` takes `Connecting` and `Connected` to
    ///   `Reconnecting`, asks for the wait that was ahead, and raises the
    ///   next one.
    /// - `BackoffElapsed` takes `Reconnecting` to `Connecting`.
    /// - Any other event changes nothing and asks for nothing.
    pub open spec fn handle(self, event: SessionEvent) -> (SessionView, SessionAction) {
        match (self.state, event) {
            (SessionState::Disconnected, SessionEvent::Shutdown) => (
                SessionView { stopped: true, ..self },
                SessionAction::Idle,
            ),
            (_, SessionEvent::Shutdown) => (
                SessionView { state: SessionState::Disconnected, stopped: true, ..self },
                SessionAction::Disconnect,
            ),
            (SessionState::Disconnected, SessionEvent::Start) => if self.stopped {
                (self, SessionAction::Idle)
            } else {
                (SessionView { state: SessionState::Connecting, ..self }, SessionAction::Connect)
            },
            (SessionState::Connecting, SessionEvent::HandshakeCompleted)
            | (SessionState::Connected, SessionEvent::HandshakeCompleted) => (
                SessionView {
                    state: SessionState::Connected,
                    next_delay_ms: self.backoff.initial_ms,
                    ..self
                },
                SessionAction::AnnounceReady,
            ),
            (SessionState::Connecting, SessionEvent::ConnectionLost)
            | (SessionState::Connected, SessionEvent::ConnectionLost) => (
                SessionView {
                    state: SessionState::Reconnecting,
                    next_delay_ms: self.backoff.raised(self.next_delay_ms),
                    ..self
                },
                SessionAction::Wait { delay_ms: self.next_delay_ms },
            ),
            (SessionState::Reconnecting, SessionEvent::BackoffElapsed) => (
                SessionView { state: SessionState::Connecting, ..self },
                SessionAction::Connect,
            ),
            _ => (self, SessionAction::Idle),
        }
    }
}

/// The one gateway session of a process: its credential, its interest set
/// and its connection state. Only [`Session::handle`] changes it.
#[derive(Debug)]
pub struct Session {
    state: SessionState,
    stopped: bool,
    token: String,
    interest: InterestSet,
    backoff: Backoff,
    next_delay_ms: u64,
}

impl View for Session {
    type V = SessionView;

    closed spec fn view(&self) -> SessionView {
        SessionView {
            state: self.state,
            stopped: self.stopped,
            token: self.token@,
            interest: self.interest,
            backoff: self.backoff@,
            next_delay_ms: self.next_delay_ms,
        }
    }
}

impl Session {
    #[verifier::type_invariant]
    spec fn inv(self) -> bool {
        self@.wf()
    }

    /// A session for `config` that has not started yet.
    pub fn new(config: &Config, backoff: Backoff) -> (session: Session)
        ensures
            session@ == SessionView::fresh(config@, backoff@),
            session@.wf(),
    {
        let initial_ms = backoff.initial_ms();
        Session {
            state: SessionState::Disconnected,
            stopped: false,
            token: String::from_str(config.token()),
            interest: InterestSet::minimal(),
            backoff,
            next_delay_ms: initial_ms,
        }
    }

    /// The connection state.
    pub fn state(&self) -> (state: SessionState)
        ensures
            state == self@.state,
    {
        self.state
    }

    /// Whether the session was shut down.
    pub fn is_stopped(&self) -> (stopped: bool)
        ensures
            stopped == self@.stopped,
    {
        self.stopped
    }

    /// The credential the session authenticates with.
    pub fn token(&self) -> (token: &str)
        ensures
            token@ == self@.token,
    {
        self.token.as_str()
    }

    /// The interest set the session declares.
    pub fn interest(&self) -> (interest: InterestSet)
        ensures
            interest == self@.interest,
    {
        self.interest
    }

    /// How the waits between attempts grow.
    pub fn backoff(&self) -> (backoff: Backoff)
        ensures
            backoff@ == self@.backoff,
    {
        self.backoff
    }

    /// Takes `event` and returns the action the session asks for. The
    /// session moves as [`SessionView::handle`] says; its token, interest
    /// set and backoff never change.
    pub fn handle(&mut self, event: SessionEvent) -> (action: SessionAction)
        ensures
            (final(self)@, action) == old(self)@.handle(event),
            final(self)@.wf(),
            final(self)@.token == old(self)@.token,
            final(self)@.interest == old(self)@.interest,
            final(self)@.backoff == old(self)@.backoff,
    {
        proof {
            use_type_invariant(&*self);
        }
        match (self.state, event) {
            (SessionState::Disconnected, SessionEvent::Shutdown) => {
                self.stopped = true;
                SessionAction::Idle
            },
            (_, SessionEvent::Shutdown) => {
                self.state = SessionState::Disconnected;
                self.stopped = true;
                SessionAction::Disconnect
            },
            (SessionState::Disconnected, SessionEvent::Start) => {
                if self.stopped {
                    SessionAction::Idle
                } else {
                    self.state = SessionState::Connecting;
                    SessionAction::Connect
                }
            },
            (SessionState::Connecting, SessionEvent::HandshakeCompleted)
            | (SessionState::Connected, SessionEvent::HandshakeCompleted) => {
                self.next_delay_ms = self.backoff.initial_ms();
                self.state = SessionState::Connected;
                SessionAction::AnnounceReady
            },
            (SessionState::Connecting, SessionEvent::ConnectionLost)
            | (SessionState::Connected, SessionEvent::ConnectionLost) => {
                let delay_ms = self.next_delay_ms;
                self.state = SessionState::Reconnecting;
                self.next_delay_ms = self.backoff.raised(delay_ms);
                SessionAction::Wait { delay_ms }
            },
            (SessionState::Reconnecting, SessionEvent::BackoffElapsed) => {
                self.state = SessionState::Connecting;
                SessionAction::Connect
            },
            _ => SessionAction::Idle,
        }
    }
}

} // verus!
