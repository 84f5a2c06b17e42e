//! Session lifecycle: one accepted client connection, paired with at most one
//! upstream connection, moves through `Accepted -> Dialing -> (Relaying |
//! DialFailed) -> Closed`. `Closed` is terminal: no session is reused or
//! pooled. A session always has exactly one client socket and one upstream
//! socket, both open or both being torn down together; the teardown policy is
//! linger-free: as soon as either direction observes end-of-stream or an
//! error, both sockets are closed, with no attempt to flush pending data.

use vstd::prelude::*;

verus! {

/// The states of one connection's lifetime.
#[derive(Clone, Copy, PartialEq, Eq, Structural, Debug)]
pub enum SessionState {
    /// The client connection was accepted; no upstream work started yet.
    Accepted,
    /// The upstream dial is in flight.
    Dialing,
    /// Both sockets are open and the byte-pump runs.
    Relaying,
    /// The upstream dial failed; the client socket is about to be closed.
    DialFailed,
    /// Both sockets are closed. Terminal.
    Closed,
}

/// The events that drive one session.
#[derive(Clone, Copy, PartialEq, Eq, Structural, Debug)]
pub enum SessionEvent {
    /// The handler begins the upstream dial.
    Start,
    /// The upstream connect completed.
    DialOk,
    /// The upstream connect failed.
    DialErr,
    /// One direction observed a clean end-of-stream (zero-length read).
    StreamEnd,
    /// A read or write failed in either direction.
    IoError,
}

/// The transition function of one session. Events that a state does not
/// expect leave it unchanged; `Closed` absorbs everything.
pub open spec fn spec_session_step(s: SessionState, e: SessionEvent) -> SessionState {
    match (s, e) {
        (SessionState::Accepted, SessionEvent::Start) => SessionState::Dialing,
        (SessionState::Dialing, SessionEvent::DialOk) => SessionState::Relaying,
        (SessionState::Dialing, SessionEvent::DialErr) => SessionState::DialFailed,
        (SessionState::Relaying, SessionEvent::StreamEnd) => SessionState::Closed,
        (SessionState::Relaying, SessionEvent::IoError) => SessionState::Closed,
        (SessionState::DialFailed, _) => SessionState::Closed,
        (SessionState::Closed, _) => SessionState::Closed,
        (other, _) => other,
    }
}

/// One session: its lifecycle state and which of its two sockets are open.
#[derive(Clone, Copy, PartialEq, Eq, Structural, Debug)]
pub struct Session {
    pub state: SessionState,
    /// Whether the client-side socket is open.
    pub client_open: bool,
    /// Whether the server-side (upstream) socket is open.
    pub upstream_open: bool,
}

/// Well-formedness: the sockets a session holds open are determined by its
/// state. In particular a session is never in `Relaying` with only one live
/// side, and `Closed` holds no socket.
pub open spec fn session_wf(s: Session) -> bool {
    match s.state {
        SessionState::Accepted => s.client_open && !s.upstream_open,
        SessionState::Dialing => s.client_open && !s.upstream_open,
        SessionState::Relaying => s.client_open && s.upstream_open,
        SessionState::DialFailed => s.client_open && !s.upstream_open,
        SessionState::Closed => !s.client_open && !s.upstream_open,
    }
}

impl Session {
    /// A freshly accepted session: the client socket is open, nothing else.
    pub fn accept() -> (s: Session)
        ensures
            s.state == SessionState::Accepted,
            s.client_open,
            !s.upstream_open,
            session_wf(s),
    {
        Session { state: SessionState::Accepted, client_open: true, upstream_open: false }
    }

    /// Applies one event: the state follows [`spec_session_step`], and the
    /// sockets follow the state. Entering `Closed` closes both sockets at
    /// once, whichever direction ended first.
    pub fn apply(&mut self, e: SessionEvent)
        requires
            session_wf(*old(self)),
        ensures
            final(self).state == spec_session_step(old(self).state, e),
            session_wf(*final(self)),
            final(self).state == SessionState::Closed ==> !final(self).client_open
                && !final(self).upstream_open,
    {
        let next = match (self.state, e) {
            (SessionState::Accepted, SessionEvent::Start) => SessionState::Dialing,
            (SessionState::Dialing, SessionEvent::DialOk) => SessionState::Relaying,
            (SessionState::Dialing, SessionEvent::DialErr) => SessionState::DialFailed,
            (SessionState::Relaying, SessionEvent::StreamEnd) => SessionState::Closed,
            (SessionState::Relaying, SessionEvent::IoError) => SessionState::Closed,
            (SessionState::DialFailed, _) => SessionState::Closed,
            (SessionState::Closed, _) => SessionState::Closed,
            (other, _) => other,
        };
        self.state = next;
        match next {
            SessionState::Relaying => {
                self.upstream_open = true;
            },
            SessionState::DialFailed => {
                self.upstream_open = false;
            },
            SessionState::Closed => {
                self.client_open = false;
                self.upstream_open = false;
            },
            _ => {},
        }
    }
}

/// `Closed` is terminal: no event moves a closed session anywhere else, so a
/// session is never reused after teardown.
pub proof fn lemma_closed_terminal(e: SessionEvent)
    ensures
        spec_session_step(SessionState::Closed, e) == SessionState::Closed,
{
}

/// The linger-free teardown policy: as soon as either direction observes a
/// clean end-of-stream or an I/O error while relaying, the session is closed,
/// and a well-formed closed session holds neither socket open. No draining of
/// the other direction happens first.
pub proof fn lemma_either_end_closes_both(s: Session, e: SessionEvent)
    requires
        session_wf(s),
        s.state == SessionState::Relaying,
        e == SessionEvent::StreamEnd || e == SessionEvent::IoError,
    ensures
        spec_session_step(s.state, e) == SessionState::Closed,
{
}

/// A failed dial is contained in its own session: the upstream socket was
/// never opened, and the next step closes the client socket, ending in the
/// terminal `Closed` state without the session ever relaying.
pub proof fn lemma_dial_failure_contained(s: Session, later: SessionEvent)
    requires
        session_wf(s),
        s.state == SessionState::Dialing,
    ensures
        spec_session_step(s.state, SessionEvent::DialErr) == SessionState::DialFailed,
        !s.upstream_open,
        spec_session_step(SessionState::DialFailed, later) == SessionState::Closed,
{
}

} // verus!
