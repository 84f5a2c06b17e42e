//! The connection relay, whole: for one accepted client connection, dial the
//! target, pump bytes both directions until either side closes or errors,
//! then tear both sockets down. A failed dial means the session never
//! starts: nothing is transferred, the client socket is closed, and the
//! failure is reported — it never reaches the listener or any other session.
//! Every failure yields exactly one log event; none disappears silently.

use vstd::prelude::*;
use crate::level::LogEvent;
use crate::pump::DirectionEnd;
use crate::pump::ReadOutcome;
use crate::pump::events;
use crate::pump::forwarded;
use crate::pump::direction_end;
use crate::pump::pump_direction;
use crate::session::Session;
use crate::session::SessionEvent;
use crate::session::SessionState;
use crate::session::session_wf;

verus! {

/// What one whole session leaves behind: its final state, the bytes each
/// direction delivered, how each direction ended, and the log events the
/// relay emitted.
pub struct RelayOutcome {
    /// The session, after teardown.
    pub session: Session,
    /// The bytes delivered to the upstream peer (client-to-upstream).
    pub to_upstream: Vec<u8>,
    /// The bytes delivered to the client (upstream-to-client).
    pub to_client: Vec<u8>,
    /// How the client-to-upstream direction ended.
    pub client_end: DirectionEnd,
    /// How the upstream-to-client direction ended.
    pub upstream_end: DirectionEnd,
    /// The structured log events the relay emitted, in order.
    pub log: Vec<LogEvent>,
}

/// The log events one ended direction contributes: a clean end-of-stream is
/// reported as such, distinct from a genuine failure; a direction the trace
/// left open contributes nothing.
pub open spec fn end_events(e: DirectionEnd) -> Seq<LogEvent> {
    match e {
        DirectionEnd::CleanEof => seq![LogEvent::StreamEnd],
        DirectionEnd::IoError => seq![LogEvent::RelayIoFailure],
        DirectionEnd::StillOpen => Seq::<LogEvent>::empty(),
    }
}

/// Appends the log events of one ended direction.
fn push_end_events(log: &mut Vec<LogEvent>, e: DirectionEnd)
    ensures
        final(log)@ == old(log)@ + end_events(e),
{
    match e {
        DirectionEnd::CleanEof => {
            log.push(LogEvent::StreamEnd);
            assert(log@ =~= old(log)@ + end_events(e));
        },
        DirectionEnd::IoError => {
            log.push(LogEvent::RelayIoFailure);
            assert(log@ =~= old(log)@ + end_events(e));
        },
        DirectionEnd::StillOpen => {
            assert(log@ =~= old(log)@ + end_events(e));
        },
    }
}

/// Runs one session end to end over the traces of reads its two sockets
/// yield. The session always ends closed, both sockets torn down together.
/// If the dial succeeds, each direction delivers to its peer exactly the
/// bytes its source sent before closing, in order, and each ended direction
/// is reported once. If the dial fails, the session never starts: nothing is
/// delivered in either direction and the one log event is the dial failure.
pub fn relay_connection(
    dial_ok: bool,
    client_reads: &Vec<ReadOutcome>,
    upstream_reads: &Vec<ReadOutcome>,
) -> (out: RelayOutcome)
    ensures
        session_wf(out.session),
        out.session.state == SessionState::Closed,
        !out.session.client_open && !out.session.upstream_open,
        dial_ok ==> out.to_upstream@ == forwarded(events(client_reads@)),
        dial_ok ==> out.to_client@ == forwarded(events(upstream_reads@)),
        dial_ok ==> out.client_end == direction_end(events(client_reads@)),
        dial_ok ==> out.upstream_end == direction_end(events(upstream_reads@)),
        dial_ok ==> out.log@ == end_events(out.client_end) + end_events(out.upstream_end),
        !dial_ok ==> out.to_upstream@ == Seq::<u8>::empty(),
        !dial_ok ==> out.to_client@ == Seq::<u8>::empty(),
        !dial_ok ==> out.log@ == seq![LogEvent::DialFailure],
{
    let mut session = Session::accept();
    session.apply(SessionEvent::Start);
    let mut log: Vec<LogEvent> = Vec::new();
    if !dial_ok {
        session.apply(SessionEvent::DialErr);
        log.push(LogEvent::DialFailure);
        session.apply(SessionEvent::IoError);
        assert(log@ =~= seq![LogEvent::DialFailure]);
        return RelayOutcome {
            session,
            to_upstream: Vec::new(),
            to_client: Vec::new(),
            client_end: DirectionEnd::StillOpen,
            upstream_end: DirectionEnd::StillOpen,
            log,
        };
    }
    session.apply(SessionEvent::DialOk);
    let (to_upstream, client_end) = pump_direction(client_reads);
    let (to_client, upstream_end) = pump_direction(upstream_reads);
    push_end_events(&mut log, client_end);
    push_end_events(&mut log, upstream_end);
    assert(log@ =~= Seq::<LogEvent>::empty() + end_events(client_end) + end_events(upstream_end));
    assert(log@ =~= end_events(client_end) + end_events(upstream_end));
    match (client_end, upstream_end) {
        (DirectionEnd::IoError, _) | (_, DirectionEnd::IoError) => {
            session.apply(SessionEvent::IoError);
        },
        _ => {
            session.apply(SessionEvent::StreamEnd);
        },
    }
    RelayOutcome { session, to_upstream, to_client, client_end, upstream_end, log }
}

} // verus!
