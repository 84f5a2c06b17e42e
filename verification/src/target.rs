//! Target registry: holds the single destination endpoint for the lifetime of
//! one relay process, created once at startup and read by every connection
//! handler. There are no writers after initialization, so a plain immutable
//! value shared by reference is enough; no synchronization primitive is used.

use vstd::prelude::*;

verus! {

/// The per-connection parameters handed to each session at spawn time: the
/// destination endpoint the relay forwards accepted connections to.
pub struct ThreadParameters {
    target: String,
}

impl View for ThreadParameters {
    type V = Seq<char>;

    closed spec fn view(&self) -> Seq<char> {
        self.target@
    }
}

impl ThreadParameters {
    /// Creates the registry with the destination endpoint given on the
    /// command line. Called once at startup.
    pub fn new(t: String) -> (r: Self)
        ensures
            r@ == t@,
    {
        ThreadParameters { target: t }
    }

    /// Read accessor for the destination endpoint. Safe to call concurrently
    /// from many handlers: it only returns a reference to the stored value.
    pub fn get(&self) -> (r: &String)
        ensures
            r@ == self@,
    {
        &self.target
    }
}

} // verus!
