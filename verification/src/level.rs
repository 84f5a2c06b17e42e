//! Logging model: the fixed ordered set of verbosity levels, the mapping from
//! repeated `-v` flags to the active level, the filtering decision, and the
//! rendering choices (label and color) for one log line. The core only emits
//! structured events; how a line is printed is decided here and carried out
//! outside.

use vstd::prelude::*;

verus! {

/// The fixed ordered set of log levels, least verbose first.
#[derive(Clone, Copy, PartialEq, Eq, Structural, Debug)]
pub enum LogLevel {
    Error,
    Warn,
    Info,
    Debug,
    Trace,
}

/// Position of a level in the ordered set: `Error` is 0, `Trace` is 4.
/// A level is enabled when its severity is at most the active level's.
pub open spec fn severity(l: LogLevel) -> nat {
    match l {
        LogLevel::Error => 0,
        LogLevel::Warn => 1,
        LogLevel::Info => 2,
        LogLevel::Debug => 3,
        LogLevel::Trace => 4,
    }
}

/// Maps the number of `-v` occurrences on the command line to the active
/// level: one step per repetition, from `Warn` up to `Trace` at four.
/// Zero or any count past four falls back to the `Error` default.
pub fn verbosity_filter(count: u64) -> (l: LogLevel)
    ensures
        l == (match count {
            4u64 => LogLevel::Trace,
            3u64 => LogLevel::Debug,
            2u64 => LogLevel::Info,
            1u64 => LogLevel::Warn,
            _ => LogLevel::Error,
        }),
{
    match count {
        4 => LogLevel::Trace,
        3 => LogLevel::Debug,
        2 => LogLevel::Info,
        1 => LogLevel::Warn,
        _ => LogLevel::Error,
    }
}

/// Filtering decision: whether an event at `level` is emitted when `max` is
/// the active level.
pub fn level_enabled(level: LogLevel, max: LogLevel) -> (r: bool)
    ensures
        r == (severity(level) <= severity(max)),
{
    severity_index(level) <= severity_index(max)
}

/// Executable severity, equal to [`severity`].
pub fn severity_index(l: LogLevel) -> (n: u8)
    ensures
        n as nat == severity(l),
{
    match l {
        LogLevel::Error => 0,
        LogLevel::Warn => 1,
        LogLevel::Info => 2,
        LogLevel::Debug => 3,
        LogLevel::Trace => 4,
    }
}

/// How one log line's level tag is styled.
#[derive(Clone, Copy, PartialEq, Eq, Structural, Debug)]
pub enum LevelStyle {
    Red,
    Magenta,
    Green,
    Cyan,
    Bold,
}

/// Rendering choice: the style of the level tag on one log line.
pub fn level_style(l: LogLevel) -> (s: LevelStyle)
    ensures
        s == (match l {
            LogLevel::Error => LevelStyle::Red,
            LogLevel::Warn => LevelStyle::Magenta,
            LogLevel::Info => LevelStyle::Green,
            LogLevel::Debug => LevelStyle::Cyan,
            LogLevel::Trace => LevelStyle::Bold,
        }),
{
    match l {
        LogLevel::Error => LevelStyle::Red,
        LogLevel::Warn => LevelStyle::Magenta,
        LogLevel::Info => LevelStyle::Green,
        LogLevel::Debug => LevelStyle::Cyan,
        LogLevel::Trace => LevelStyle::Bold,
    }
}

/// Rendering choice: the text of the level tag on one log line.
pub fn level_label(l: LogLevel) -> (s: &'static str)
    ensures
        l == LogLevel::Error ==> s@ == "ERROR"@,
        l == LogLevel::Warn ==> s@ == "WARN"@,
        l == LogLevel::Info ==> s@ == "INFO"@,
        l == LogLevel::Debug ==> s@ == "DEBUG"@,
        l == LogLevel::Trace ==> s@ == "TRACE"@,
{
    match l {
        LogLevel::Error => "ERROR",
        LogLevel::Warn => "WARN",
        LogLevel::Info => "INFO",
        LogLevel::Debug => "DEBUG",
        LogLevel::Trace => "TRACE",
    }
}

/// The structured events the core emits. A clean end-of-stream is an event of
/// its own, distinguished from a genuine I/O failure, though both tear the
/// session down.
#[derive(Clone, Copy, PartialEq, Eq, Structural, Debug)]
pub enum LogEvent {
    /// A client connection was accepted.
    ConnectionAccepted,
    /// The upstream dial for one session failed.
    DialFailure,
    /// A read or write failed mid-relay.
    RelayIoFailure,
    /// One direction of a session reached a clean end-of-stream.
    StreamEnd,
    /// One accept call failed while the listening socket stayed valid.
    AcceptFailure,
}

/// The severity each event is reported at. Failures are `Error` or `Warn`;
/// a clean end-of-stream is not an error condition and is reported at `Debug`.
pub fn event_level(e: LogEvent) -> (l: LogLevel)
    ensures
        l == (match e {
            LogEvent::ConnectionAccepted => LogLevel::Info,
            LogEvent::DialFailure => LogLevel::Error,
            LogEvent::RelayIoFailure => LogLevel::Error,
            LogEvent::StreamEnd => LogLevel::Debug,
            LogEvent::AcceptFailure => LogLevel::Warn,
        }),
        severity(l) >= 2 <==> !(e == LogEvent::DialFailure || e == LogEvent::RelayIoFailure
            || e == LogEvent::AcceptFailure),
{
    match e {
        LogEvent::ConnectionAccepted => LogLevel::Info,
        LogEvent::DialFailure => LogLevel::Error,
        LogEvent::RelayIoFailure => LogLevel::Error,
        LogEvent::StreamEnd => LogLevel::Debug,
        LogEvent::AcceptFailure => LogLevel::Warn,
    }
}

} // verus!
