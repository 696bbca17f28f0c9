//! Peers that a node is connected to.
use vstd::prelude::*;
use crate::net::{Ip, SockAddr};

verus! {

/// Whether the connection to a peer was accepted or opened by this node.
#[derive(Debug, Clone, Copy, PartialEq, Eq, Structural)]
pub enum PeerDirection {
    Inbound,
    Outbound,
}

/// A connected peer. `stream_id` names the connection (the remote socket
/// address); `address` and `port` say where the peer's own server listens.
#[derive(Debug, Clone, Copy, PartialEq, Eq, Structural)]
pub struct Peer {
    pub stream_id: SockAddr,
    pub direction: PeerDirection,
    pub address: Option<Ip>,
    pub port: u16,
}

} // verus!
