//! Network endpoints as plain values.
//!
//! The engine stores addresses in its own opaque form; the async runtime uses
//! the platform's socket-address type. The bridge keeps each endpoint as a
//! plain record (address bits plus port) so that contracts can speak about it
//! directly. Converting to and from the platform or engine representation is
//! the runtime's business.

use vstd::prelude::*;

verus! {

/// A network endpoint: an IP address (v4 or v6) and a port.
///
/// A v4 address keeps its 32 bits in the low bits of `ip` with `v6 == false`;
/// a v6 address uses all 128 bits with `v6 == true`.
#[derive(Debug, Clone, Copy, PartialEq, Eq, Structural)]
pub struct Endpoint {
    /// Address bits; a v4 address occupies the low 32 bits.
    pub ip: u128,
    /// Whether `ip` holds a 128-bit (v6) address.
    pub v6: bool,
    /// Transport-layer port.
    pub port: u16,
}

impl Endpoint {
    /// A v4 endpoint from its 32 address bits and port.
    pub fn v4(ip: u32, port: u16) -> (e: Endpoint)
        ensures
            e == (Endpoint { ip: ip as u128, v6: false, port }),
    {
        Endpoint { ip: ip as u128, v6: false, port }
    }

    /// A v6 endpoint from its 128 address bits and port.
    pub fn v6(ip: u128, port: u16) -> (e: Endpoint)
        ensures
            e == (Endpoint { ip, v6: true, port }),
    {
        Endpoint { ip, v6: true, port }
    }
}

} // verus!
