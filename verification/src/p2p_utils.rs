//! Decisions taken on a peer connection: whether to open one, what to do
//! with the bytes read from it, and what to forget when it closes.
use vstd::prelude::*;
use crate::message::{spec_unmarshall, DecodeError, Message};
use crate::net::{localhost, spec_localhost, SockAddr};
use crate::p2p_routes::{handle, spec_handle, Reaction};
use crate::p2p_server::{is_first_on_stream, no_peer_on_stream, Server};
use crate::peer::{Peer, PeerDirection};

verus! {

/// Why a node does not connect to a peer.
#[derive(Debug, Clone, Copy, PartialEq, Eq, Structural)]
pub enum ConnectError {
    /// The port is the node's own.
    SelfConnect,
}

impl ConnectError {
    /// The text of the error.
    pub fn describe(&self) -> (s: String)
        ensures
            s@ == "Connecting to self ignoring"@,
    {
        "Connecting to self ignoring".to_owned()
    }
}

/// Where a node connects to reach the peer listening on `port`:
/// 127.0.0.1:`port`, unless `port` is the node's own.
pub fn connect_to_peer(server: &Server, port: u16) -> (r: Result<SockAddr, ConnectError>)
    ensures
        server.port != port ==> r == Ok::<SockAddr, ConnectError>(
            SockAddr { ip: spec_localhost(), port },
        ),
        server.port == port ==> r == Err::<SockAddr, ConnectError>(ConnectError::SelfConnect),
{
    if server.port != port {
        Ok(SockAddr { ip: localhost(), port })
    } else {
        Err(ConnectError::SelfConnect)
    }
}

/// The peer recorded for a connection this node opened to the peer
/// listening on `port`; the connection is named by its remote address.
pub open spec fn outbound_peer(remote_addr: SockAddr, port: u16) -> Peer {
    Peer { stream_id: remote_addr, direction: PeerDirection::Outbound, address: None, port }
}

/// Records the connection this node opened to the peer listening on `port`.
pub fn register_outbound(server: &mut Server, remote_addr: SockAddr, port: u16)
    ensures
        final(server).address == old(server).address,
        final(server).port == old(server).port,
        final(server).peers@ == old(server).peers@.push(outbound_peer(remote_addr, port)),
{
    server.add_peer(
        Peer { stream_id: remote_addr, direction: PeerDirection::Outbound, address: None, port },
    );
}

/// What became of one read from a peer connection.
#[derive(Debug)]
pub enum ConnStep {
    /// The read returned no bytes: the connection is closed and its peer forgotten.
    Closed,
    /// The bytes hold no message.
    Undecodable(DecodeError),
    /// The bytes held a message; this is the node's reaction to it.
    Handled(Reaction),
}

/// Handles one read of `data` from connection `stream_id`, whose other side
/// is `remote_addr`.
pub fn handle_connection(server: &mut Server, data: &[u8], stream_id: SockAddr, remote_addr: SockAddr) -> (r: ConnStep)
    ensures
        final(server).address == old(server).address,
        final(server).port == old(server).port,
        data@.len() == 0 ==> {
            &&& r is Closed
            &&& forall|i: int| #[trigger] is_first_on_stream(old(server).peers@, stream_id, i)
                ==> final(server).peers@ == old(server).peers@.remove(i)
            &&& no_peer_on_stream(old(server).peers@, stream_id) ==> final(server).peers@ == old(server).peers@
        },
        data@.len() != 0 ==> match spec_unmarshall(data@) {
            Err(e) => r == ConnStep::Undecodable(e) && final(server).peers@ == old(server).peers@,
            Ok(m) => r matches ConnStep::Handled(re) && (final(server).peers@, re@) == spec_handle(
                old(server).address,
                old(server).port,
                old(server).peers@,
                m,
                stream_id,
                remote_addr,
            ),
        },
{
    if data.len() == 0 {
        server.remove_peer(stream_id);
        return ConnStep::Closed;
    }
    match Message::unmarshall(data) {
        Err(e) => ConnStep::Undecodable(e),
        Ok(message) => ConnStep::Handled(handle(server, &message, stream_id, remote_addr)),
    }
}

} // verus!
