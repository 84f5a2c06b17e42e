//! Endpoint handling. An endpoint is a string address in one of three forms:
//! a bare port, `host:port`, or `fqdn:port`. The forms with a host part carry
//! a `:`; a bare port does not. Nothing further is validated here: resolution
//! happens at bind or dial time, outside, and performs whatever checks the
//! resolve or connect call performs.

use vstd::prelude::*;

verus! {

/// Whether the endpoint string carries a host part, i.e. some character is a
/// `:` separating host from port.
pub open spec fn has_host_part(s: Seq<char>) -> bool {
    exists|i: int| 0 <= i < s.len() && s[i] == ':'
}

/// The shape of an endpoint string.
#[derive(Clone, Copy, PartialEq, Eq, Structural, Debug)]
pub enum EndpointForm {
    /// A bare port with no host part.
    BarePort,
    /// `host:port` or `fqdn:port`.
    HostPort,
}

/// Whether some character of `s` is a `:`.
pub fn contains_colon(s: &str) -> (r: bool)
    ensures
        r == has_host_part(s@),
{
    let n = s.unicode_len();
    let mut i: usize = 0;
    while i < n
        invariant
            n == s@.len(),
            i <= n,
            forall|j: int| 0 <= j < i ==> s@[j] != ':',
        decreases n - i,
    {
        if s.get_char(i) == ':' {
            assert(s@[i as int] == ':');
            return true;
        }
        i = i + 1;
    }
    false
}

/// Classifies an endpoint string by the presence of a host part.
pub fn endpoint_form(s: &str) -> (f: EndpointForm)
    ensures
        f == (if has_host_part(s@) {
            EndpointForm::HostPort
        } else {
            EndpointForm::BarePort
        }),
{
    if contains_colon(s) {
        EndpointForm::HostPort
    } else {
        EndpointForm::BarePort
    }
}

/// The address handed to the bind call for the source endpoint: a bare port
/// binds all interfaces, so it is prefixed with the wildcard host; a form
/// with a host part is passed through unchanged.
pub fn bind_address(s: &str) -> (r: String)
    ensures
        has_host_part(s@) ==> r@ == s@,
        !has_host_part(s@) ==> r@ == "0.0.0.0:"@ + s@,
{
    if contains_colon(s) {
        s.to_owned()
    } else {
        String::from_str("0.0.0.0:").concat(s)
    }
}

/// The address handed to the dial call for the destination endpoint: a bare
/// port means a port on the local host, so it is prefixed with the loopback
/// host; a form with a host part is passed through unchanged.
pub fn dial_address(s: &str) -> (r: String)
    ensures
        has_host_part(s@) ==> r@ == s@,
        !has_host_part(s@) ==> r@ == "127.0.0.1:"@ + s@,
{
    if contains_colon(s) {
        s.to_owned()
    } else {
        String::from_str("127.0.0.1:").concat(s)
    }
}

} // verus!
