use socat_rs::dispatch::{
    dispatch_step, run_dispatcher, startup_decision, AcceptEvent, DispatchAction, Listener,
    StartupDecision,
};
use socat_rs::pump::{
    classify_read, pump_direction, pump_interleaved, pump_many, pump_step, DirectionEnd,
    PumpAction, ReadOutcome,
};
use socat_rs::level::LogEvent;
use socat_rs::relay::relay_connection;
use socat_rs::session::{Session, SessionEvent, SessionState};

#[test]
fn pump_step_forwards_data_untouched() {
    let action = pump_step(ReadOutcome::Data(vec![1, 2, 3]));
    match action {
        PumpAction::Forward(bytes) => assert_eq!(bytes, vec![1, 2, 3]),
        _ => panic!("data must be forwarded"),
    }
}

#[test]
fn pump_step_closes_cleanly_on_eof() {
    match pump_step(ReadOutcome::Eof) {
        PumpAction::CloseClean => {}
        _ => panic!("end-of-stream must close cleanly"),
    }
}

#[test]
fn pump_step_closes_with_error_on_failure() {
    match pump_step(ReadOutcome::Failed) {
        PumpAction::CloseError => {}
        _ => panic!("a failed read must close with an error"),
    }
}

#[test]
fn classify_read_takes_exactly_the_bytes_read() {
    let buf = vec![10, 20, 30, 40, 50];
    match classify_read(true, 3, &buf) {
        ReadOutcome::Data(bytes) => assert_eq!(bytes, vec![10, 20, 30]),
        _ => panic!("a positive read is data"),
    }
}

#[test]
fn classify_read_zero_length_is_eof() {
    let buf = vec![9, 9];
    match classify_read(true, 0, &buf) {
        ReadOutcome::Eof => {}
        _ => panic!("a zero-length read is a clean end-of-stream"),
    }
}

#[test]
fn classify_read_failure_is_failed() {
    let buf = vec![];
    match classify_read(false, 0, &buf) {
        ReadOutcome::Failed => {}
        _ => panic!("a failed call is a failure"),
    }
}

#[test]
fn pump_delivers_chunks_in_order() {
    let script = vec![
        ReadOutcome::Data(b"pi".to_vec()),
        ReadOutcome::Data(b"ng".to_vec()),
        ReadOutcome::Eof,
    ];
    let (delivered, end) = pump_direction(&script);
    assert_eq!(delivered, b"ping".to_vec());
    assert_eq!(end, DirectionEnd::CleanEof);
}

#[test]
fn pump_delivers_nothing_after_failure() {
    let script = vec![
        ReadOutcome::Data(b"a".to_vec()),
        ReadOutcome::Failed,
        ReadOutcome::Data(b"b".to_vec()),
    ];
    let (delivered, end) = pump_direction(&script);
    assert_eq!(delivered, b"a".to_vec());
    assert_eq!(end, DirectionEnd::IoError);
}

#[test]
fn pump_delivers_nothing_after_eof() {
    // The linger-free policy: data still queued behind the first
    // end-of-stream is dropped, not drained.
    let script = vec![ReadOutcome::Eof, ReadOutcome::Data(b"late".to_vec())];
    let (delivered, end) = pump_direction(&script);
    assert_eq!(delivered, Vec::<u8>::new());
    assert_eq!(end, DirectionEnd::CleanEof);
}

#[test]
fn pump_without_close_stays_open() {
    let script = vec![ReadOutcome::Data(b"x".to_vec())];
    let (delivered, end) = pump_direction(&script);
    assert_eq!(delivered, b"x".to_vec());
    assert_eq!(end, DirectionEnd::StillOpen);
}

#[test]
fn sessions_do_not_block_one_another() {
    // Three concurrent clients: one sends, one never sends anything, one
    // fails. Each session's delivery depends on its own reads alone.
    let scripts = vec![
        vec![ReadOutcome::Data(b"first".to_vec()), ReadOutcome::Eof],
        vec![],
        vec![ReadOutcome::Failed],
    ];
    let outs = pump_many(&scripts);
    assert_eq!(outs.len(), 3);
    assert_eq!(outs[0].0, b"first".to_vec());
    assert_eq!(outs[0].1, DirectionEnd::CleanEof);
    assert_eq!(outs[1].0, Vec::<u8>::new());
    assert_eq!(outs[1].1, DirectionEnd::StillOpen);
    assert_eq!(outs[2].0, Vec::<u8>::new());
    assert_eq!(outs[2].1, DirectionEnd::IoError);
}

#[test]
fn interleaving_does_not_couple_sessions() {
    // Three sessions run under an arbitrary interleaving: one sends two
    // chunks and closes, one never sends at all, one fails after a chunk.
    // Each ends exactly as it would alone.
    let scripts = vec![
        vec![
            ReadOutcome::Data(b"abc".to_vec()),
            ReadOutcome::Data(b"def".to_vec()),
            ReadOutcome::Eof,
        ],
        vec![],
        vec![ReadOutcome::Data(b"x".to_vec()), ReadOutcome::Failed],
    ];
    let schedule = vec![0, 1, 2, 1, 0, 2, 0, 2, 1, 0];
    let runs = pump_interleaved(&scripts, &schedule);
    assert_eq!(runs.len(), 3);
    assert_eq!(runs[0].written, b"abcdef".to_vec());
    assert_eq!(runs[0].ended, Some(DirectionEnd::CleanEof));
    assert_eq!(runs[1].written, Vec::<u8>::new());
    assert_eq!(runs[1].consumed, 0);
    assert_eq!(runs[1].ended, None);
    assert_eq!(runs[2].written, b"x".to_vec());
    assert_eq!(runs[2].ended, Some(DirectionEnd::IoError));
}

#[test]
fn session_lifecycle_relays_then_closes_both_sockets() {
    let mut s = Session::accept();
    assert_eq!(s.state, SessionState::Accepted);
    assert!(s.client_open);
    assert!(!s.upstream_open);

    s.apply(SessionEvent::Start);
    assert_eq!(s.state, SessionState::Dialing);

    s.apply(SessionEvent::DialOk);
    assert_eq!(s.state, SessionState::Relaying);
    assert!(s.client_open);
    assert!(s.upstream_open);

    s.apply(SessionEvent::StreamEnd);
    assert_eq!(s.state, SessionState::Closed);
    assert!(!s.client_open);
    assert!(!s.upstream_open);
}

#[test]
fn session_io_error_closes_both_sockets_at_once() {
    let mut s = Session::accept();
    s.apply(SessionEvent::Start);
    s.apply(SessionEvent::DialOk);
    s.apply(SessionEvent::IoError);
    assert_eq!(s.state, SessionState::Closed);
    assert!(!s.client_open);
    assert!(!s.upstream_open);
}

#[test]
fn dial_failure_closes_client_without_relaying() {
    let mut s = Session::accept();
    s.apply(SessionEvent::Start);
    s.apply(SessionEvent::DialErr);
    assert_eq!(s.state, SessionState::DialFailed);
    assert!(s.client_open);
    assert!(!s.upstream_open);

    s.apply(SessionEvent::Start);
    assert_eq!(s.state, SessionState::Closed);
    assert!(!s.client_open);
    assert!(!s.upstream_open);
}

#[test]
fn closed_session_is_terminal() {
    let mut s = Session::accept();
    s.apply(SessionEvent::Start);
    s.apply(SessionEvent::DialErr);
    s.apply(SessionEvent::Start);
    assert_eq!(s.state, SessionState::Closed);
    for e in [
        SessionEvent::Start,
        SessionEvent::DialOk,
        SessionEvent::DialErr,
        SessionEvent::StreamEnd,
        SessionEvent::IoError,
    ] {
        s.apply(e);
        assert_eq!(s.state, SessionState::Closed);
    }
}

#[test]
fn relay_moves_bytes_both_ways_and_closes() {
    let client_reads = vec![ReadOutcome::Data(b"ping".to_vec()), ReadOutcome::Eof];
    let upstream_reads = vec![ReadOutcome::Data(b"pong".to_vec()), ReadOutcome::Eof];
    let out = relay_connection(true, &client_reads, &upstream_reads);
    assert_eq!(out.to_upstream, b"ping".to_vec());
    assert_eq!(out.to_client, b"pong".to_vec());
    assert_eq!(out.client_end, DirectionEnd::CleanEof);
    assert_eq!(out.upstream_end, DirectionEnd::CleanEof);
    assert_eq!(out.session.state, SessionState::Closed);
    assert!(!out.session.client_open);
    assert!(!out.session.upstream_open);
    assert_eq!(out.log, vec![LogEvent::StreamEnd, LogEvent::StreamEnd]);
}

#[test]
fn relay_with_failed_dial_transfers_nothing() {
    let client_reads = vec![ReadOutcome::Data(b"never sent".to_vec())];
    let upstream_reads = vec![];
    let out = relay_connection(false, &client_reads, &upstream_reads);
    assert_eq!(out.to_upstream, Vec::<u8>::new());
    assert_eq!(out.to_client, Vec::<u8>::new());
    assert_eq!(out.session.state, SessionState::Closed);
    assert!(!out.session.client_open);
    assert!(!out.session.upstream_open);
    assert_eq!(out.log, vec![LogEvent::DialFailure]);
}

#[test]
fn relay_reports_an_io_failure_once() {
    let client_reads = vec![ReadOutcome::Failed];
    let upstream_reads = vec![ReadOutcome::Data(b"queued".to_vec()), ReadOutcome::Eof];
    let out = relay_connection(true, &client_reads, &upstream_reads);
    assert_eq!(out.to_upstream, Vec::<u8>::new());
    assert_eq!(out.client_end, DirectionEnd::IoError);
    assert_eq!(out.session.state, SessionState::Closed);
    assert_eq!(out.log, vec![LogEvent::RelayIoFailure, LogEvent::StreamEnd]);
}

#[test]
fn bind_conflict_fails_fast() {
    assert_eq!(startup_decision(false), StartupDecision::FailFast);
}

#[test]
fn successful_bind_runs() {
    assert_eq!(startup_decision(true), StartupDecision::Run);
}

#[test]
fn dispatch_spawns_on_connection_and_survives_errors() {
    assert_eq!(
        dispatch_step(AcceptEvent::Connection),
        DispatchAction::SpawnSession
    );
    assert_eq!(
        dispatch_step(AcceptEvent::TransientError),
        DispatchAction::LogAndContinue
    );
}

#[test]
fn listener_keeps_accepting_after_failed_session() {
    // A client connects, its session's dial fails, and a second client
    // connects immediately after: the listener spawns for both and stays
    // live throughout.
    let mut l = Listener::bound();

    let a1 = l.handle_accept(AcceptEvent::Connection);
    assert_eq!(a1, DispatchAction::SpawnSession);
    let mut failed = Session::accept();
    failed.apply(SessionEvent::Start);
    failed.apply(SessionEvent::DialErr);
    failed.apply(SessionEvent::Start);
    assert_eq!(failed.state, SessionState::Closed);

    assert!(l.accepting);
    let a2 = l.handle_accept(AcceptEvent::Connection);
    assert_eq!(a2, DispatchAction::SpawnSession);
    assert!(l.accepting);
    assert_eq!(l.spawned, 2);
}

#[test]
fn accept_loop_survives_transient_errors() {
    let mut l = Listener::bound();
    let script = vec![
        AcceptEvent::Connection,
        AcceptEvent::TransientError,
        AcceptEvent::Connection,
        AcceptEvent::TransientError,
        AcceptEvent::TransientError,
    ];
    run_dispatcher(&mut l, &script);
    assert!(l.accepting);
    assert_eq!(l.spawned, 2);
}
