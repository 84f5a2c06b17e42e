//! Listener/Dispatcher: binds the source endpoint once, then loops
//! indefinitely accepting connections. Bind failure is fatal to the whole
//! process; a failure to accept one connection is logged and the loop
//! continues; every accepted connection spawns a new independent session
//! that the dispatcher never waits for. Only process shutdown ends the loop.

use vstd::prelude::*;
use crate::session::Session;
use crate::session::SessionEvent;
use crate::session::SessionState;
use crate::session::session_wf;
use crate::session::spec_session_step;

verus! {

/// Whether the process can start serving: without its listening socket the
/// service cannot exist, so a failed bind is fatal.
#[derive(Clone, Copy, PartialEq, Eq, Structural, Debug)]
pub enum StartupDecision {
    /// The source endpoint is bound; enter the accept loop.
    Run,
    /// The source endpoint could not be bound (for instance, it is already in
    /// use): report a diagnostic and exit with a non-zero status, at once.
    FailFast,
}

/// Decides whether the process starts, from the outcome of the one bind
/// call. There is no retry and no fallback: a bind failure fails fast.
pub fn startup_decision(bind_ok: bool) -> (d: StartupDecision)
    ensures
        d == (if bind_ok {
            StartupDecision::Run
        } else {
            StartupDecision::FailFast
        }),
{
    if bind_ok {
        StartupDecision::Run
    } else {
        StartupDecision::FailFast
    }
}

/// The outcome of one accept call.
#[derive(Clone, Copy, PartialEq, Eq, Structural, Debug)]
pub enum AcceptEvent {
    /// A client connection was accepted.
    Connection,
    /// The accept call failed while the listening socket stayed valid.
    TransientError,
}

/// What the dispatcher does with one accept outcome.
#[derive(Clone, Copy, PartialEq, Eq, Structural, Debug)]
pub enum DispatchAction {
    /// Start a new, independent, detached unit of concurrent execution
    /// running the connection relay; do not wait for it.
    SpawnSession,
    /// Log the accept failure and keep accepting.
    LogAndContinue,
}

/// The dispatcher's per-accept decision. It is a function of that one accept
/// outcome alone — no session's state or fate feeds into it, so no session
/// can stall or stop the loop.
pub open spec fn spec_dispatch_step(e: AcceptEvent) -> DispatchAction {
    match e {
        AcceptEvent::Connection => DispatchAction::SpawnSession,
        AcceptEvent::TransientError => DispatchAction::LogAndContinue,
    }
}

/// Decides what to do with one accept outcome.
pub fn dispatch_step(e: AcceptEvent) -> (a: DispatchAction)
    ensures
        a == spec_dispatch_step(e),
{
    match e {
        AcceptEvent::Connection => DispatchAction::SpawnSession,
        AcceptEvent::TransientError => DispatchAction::LogAndContinue,
    }
}

/// The listener's own state: whether it is still accepting, and how many
/// sessions it has spawned.
#[derive(Clone, Copy, PartialEq, Eq, Structural, Debug)]
pub struct Listener {
    /// The accept loop is live. Nothing below process shutdown clears this.
    pub accepting: bool,
    /// How many sessions the listener has spawned.
    pub spawned: u64,
}

/// How many of a trace of accept outcomes are connections.
pub open spec fn connection_count(t: Seq<AcceptEvent>) -> nat
    decreases t.len(),
{
    if t.len() == 0 {
        0
    } else {
        connection_count(t.drop_last()) + (if t.last() == AcceptEvent::Connection {
            1nat
        } else {
            0nat
        })
    }
}

impl Listener {
    /// The listener right after the successful bind: live, nothing spawned.
    pub fn bound() -> (l: Listener)
        ensures
            l.accepting,
            l.spawned == 0,
    {
        Listener { accepting: true, spawned: 0 }
    }

    /// Handles one accept outcome: a connection spawns a session, a transient
    /// error is logged — and either way the listener keeps accepting.
    pub fn handle_accept(&mut self, e: AcceptEvent) -> (a: DispatchAction)
        requires
            old(self).spawned < u64::MAX,
        ensures
            a == spec_dispatch_step(e),
            final(self).accepting == old(self).accepting,
            final(self).spawned == old(self).spawned + (if e == AcceptEvent::Connection {
                1int
            } else {
                0int
            }),
    {
        match e {
            AcceptEvent::Connection => {
                self.spawned = self.spawned + 1;
                DispatchAction::SpawnSession
            },
            AcceptEvent::TransientError => DispatchAction::LogAndContinue,
        }
    }
}

/// Runs the accept loop over a trace of accept outcomes: every connection
/// spawns a session, every transient error leaves the loop running. After
/// any trace whatsoever the listener is as live as before — accept failures
/// and anything that happens inside sessions never terminate it.
pub fn run_dispatcher(l: &mut Listener, script: &Vec<AcceptEvent>)
    requires
        old(l).spawned + script@.len() <= u64::MAX,
    ensures
        final(l).accepting == old(l).accepting,
        final(l).spawned == old(l).spawned + connection_count(script@),
{
    let mut i: usize = 0;
    while i < script.len()
        invariant
            i <= script@.len(),
            l.accepting == old(l).accepting,
            old(l).spawned + script@.len() <= u64::MAX,
            l.spawned == old(l).spawned + connection_count(script@.take(i as int)),
        decreases script@.len() - i,
    {
        proof {
            assert(script@.take(i + 1 as int).drop_last() =~= script@.take(i as int));
            assert(script@.take(i + 1 as int).last() == script@[i as int]);
            lemma_connection_count_bound(script@.take(i as int));
        }
        let e = script[i];
        let _a = l.handle_accept(e);
        i = i + 1;
    }
    proof {
        assert(script@.take(script@.len() as int) =~= script@);
    }
}

/// A trace cannot hold more connections than accept outcomes.
proof fn lemma_connection_count_bound(t: Seq<AcceptEvent>)
    ensures
        connection_count(t) <= t.len(),
    decreases t.len(),
{
    if t.len() > 0 {
        lemma_connection_count_bound(t.drop_last());
    }
}

/// A failed dial is invisible to the listener: the session that failed ends
/// closed without ever relaying, and the dispatcher's decision for the next
/// accepted connection is what it always is — spawn a fresh session. The
/// dispatcher's decision takes no session state at all, so no failed (or
/// stalled) session can change it.
pub proof fn lemma_listener_survives_dial_failure(s: Session, later: SessionEvent)
    requires
        session_wf(s),
        s.state == SessionState::Dialing,
    ensures
        spec_session_step(spec_session_step(s.state, SessionEvent::DialErr), later)
            == SessionState::Closed,
        spec_dispatch_step(AcceptEvent::Connection) == DispatchAction::SpawnSession,
{
}

} // verus!
