//! Core of a command-line TCP relay: it listens on a source address and, for
//! every accepted client connection, opens a connection to a fixed destination
//! address, then copies bytes in both directions until either side closes or
//! errors.
//!
//! This crate holds the relay's decision logic, verified: the target registry,
//! the per-connection session state machine, the byte-pump, the dispatcher's
//! accept-loop decisions, and the logging model. Socket and thread plumbing
//! lives outside, feeding events in and carrying actions out.

pub mod dispatch;
pub mod endpoint;
pub mod level;
pub mod pump;
pub mod relay;
pub mod session;
pub mod target;

pub use target::ThreadParameters;
