//! What the command line asks a node to do.
use vstd::prelude::*;

verus! {

/// The commands of the command line.
#[derive(Debug, PartialEq, Eq)]
pub enum Commands {
    /// Start a node: its HTTP server on `address`:`port`, its peer-to-peer
    /// server on the port after it.
    Start { address: String, port: u16 },
}

/// The port of the peer-to-peer server of a node whose HTTP server listens
/// on `http_port`.
pub fn p2p_port(http_port: u16) -> (p: u16)
    requires
        http_port < u16::MAX,
    ensures
        p == http_port + 1,
{
    http_port + 1
}

} // verus!
