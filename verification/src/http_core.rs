//! The HTTP front of a node.
use vstd::prelude::*;
use crate::net::Ip;

verus! {

/// Where the HTTP server of a node listens.
#[derive(Debug, Clone, Copy, PartialEq, Eq, Structural)]
pub struct Server {
    pub address: Ip,
    pub port: u16,
}

impl Server {
    /// An HTTP server that listens on `address`:`port`.
    pub fn new(address: Ip, port: u16) -> (s: Server)
        ensures
            s.address == address,
            s.port == port,
    {
        Server { address, port }
    }
}

} // verus!
