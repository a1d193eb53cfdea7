//! The network address of the connected peer, as plain numeric parts.

use vstd::prelude::*;

verus! {

/// An IP address, either dotted-quad or eight 16-bit segments.
#[derive(Clone, Copy, Debug, PartialEq, Eq, Structural)]
pub enum IpAddress {
    V4 { a: u8, b: u8, c: u8, d: u8 },
    V6 { s0: u16, s1: u16, s2: u16, s3: u16, s4: u16, s5: u16, s6: u16, s7: u16 },
}

/// The socket address of the connected peer: an IP address and a port.
///
/// The transport layer records one of these before the filter chain runs;
/// filters only ever read it.
#[derive(Clone, Copy, Debug, PartialEq, Eq, Structural)]
pub struct PeerAddress {
    pub ip: IpAddress,
    pub port: u16,
}

impl PeerAddress {
    /// A dotted-quad address with a port.
    pub fn v4(a: u8, b: u8, c: u8, d: u8, port: u16) -> (r: PeerAddress)
        ensures
            r == (PeerAddress { ip: IpAddress::V4 { a, b, c, d }, port }),
    {
        PeerAddress { ip: IpAddress::V4 { a, b, c, d }, port }
    }
}

} // verus!
