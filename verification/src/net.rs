//! Plain-value network addresses.
use vstd::prelude::*;

verus! {

/// An IP address, version 4 (four octets) or version 6 (eight 16-bit groups).
#[derive(Debug, Clone, Copy, PartialEq, Eq, Hash, Structural)]
pub enum Ip {
    V4(u8, u8, u8, u8),
    V6(u16, u16, u16, u16, u16, u16, u16, u16),
}

/// A socket address: an IP address and a port.
#[derive(Debug, Clone, Copy, PartialEq, Eq, Hash, Structural)]
pub struct SockAddr {
    pub ip: Ip,
    pub port: u16,
}

/// The IPv4 loopback address 127.0.0.1.
pub open spec fn spec_localhost() -> Ip {
    Ip::V4(127, 0, 0, 1)
}

/// The IPv4 loopback address 127.0.0.1.
pub fn localhost() -> (ip: Ip)
    ensures
        ip == spec_localhost(),
{
    Ip::V4(127, 0, 0, 1)
}

} // verus!
