//! How a node answers each kind of gossip.
use vstd::prelude::*;
use crate::message::{
    lemma_unmarshall_marshall, spec_marshall, spec_unmarshall, message_view, DecodeError, GossipTypes,
    Message, MessageView,
};
use crate::net::{Ip, SockAddr};
use crate::p2p_server::{
    broadcast_targets, handshake_view, lemma_broadcast_targets, new_peer_notice, outgoing_views, spec_broadcast, Outgoing,
    Server,
};
use crate::peer::{Peer, PeerDirection};

verus! {

/// How long a node waits before answering a ping, in milliseconds.
pub const PING_DELAY_MS: u64 = 2000;

/// What a node does after a message arrives: wait `delay_ms`, write `reply`
/// back on the same connection, write each broadcast message to its
/// connection, connect to the peer listening on `connect_to`, and run `task`.
#[derive(Debug)]
pub struct Reaction {
    pub delay_ms: u64,
    pub reply: Option<Vec<u8>>,
    pub broadcast: Vec<Outgoing>,
    pub connect_to: Option<u16>,
    pub task: Option<String>,
}

/// The mathematical content of a reaction.
pub struct ReactionView {
    pub delay_ms: u64,
    pub reply: Option<Seq<u8>>,
    pub broadcast: Seq<(SockAddr, Seq<u8>)>,
    pub connect_to: Option<u16>,
    pub task: Option<Seq<char>>,
}

impl View for Reaction {
    type V = ReactionView;

    open spec fn view(&self) -> ReactionView {
        ReactionView {
            delay_ms: self.delay_ms,
            reply: match self.reply {
                Some(b) => Some(b@),
                None => None,
            },
            broadcast: outgoing_views(self.broadcast@),
            connect_to: self.connect_to,
            task: match self.task {
                Some(t) => Some(t@),
                None => None,
            },
        }
    }
}

/// A reaction that does nothing.
pub open spec fn quiet() -> ReactionView {
    ReactionView {
        delay_ms: 0,
        reply: None,
        broadcast: Seq::empty(),
        connect_to: None,
        task: None,
    }
}

/// A reaction that answers with `m` after `delay_ms`.
pub open spec fn answer(delay_ms: u64, m: MessageView) -> ReactionView {
    ReactionView { delay_ms, reply: Some(spec_marshall(m)), ..quiet() }
}

/// Whether some peer's server listens on `port`.
pub open spec fn knows_port(peers: Seq<Peer>, port: u16) -> bool {
    exists|i: int| 0 <= i < peers.len() && peers[i].port == port
}

/// The peer recorded for an accepted connection whose other side listens on `port`.
pub open spec fn inbound_peer(stream_id: SockAddr, remote_addr: SockAddr, port: u16) -> Peer {
    Peer { stream_id, direction: PeerDirection::Inbound, address: Some(remote_addr.ip), port }
}

/// The peers afterwards and the reaction of a node listening on
/// `address`:`port` with `peers`, when message `m` arrives on connection
/// `stream_id` from `remote_addr`.
pub open spec fn spec_handle(
    address: Ip,
    port: u16,
    peers: Seq<Peer>,
    m: MessageView,
    stream_id: SockAddr,
    remote_addr: SockAddr,
) -> (Seq<Peer>, ReactionView) {
    match m.gossip_type {
        GossipTypes::Ping => (
            peers,
            answer(PING_DELAY_MS, message_view(GossipTypes::Pong, "Ponging"@, Some(address), port)),
        ),
        GossipTypes::Pong => (
            peers,
            answer(0, message_view(GossipTypes::Ping, "Pinging"@, Some(address), port)),
        ),
        GossipTypes::RequestServerInfo => (
            peers,
            answer(
                0,
                message_view(GossipTypes::ProcessServerInfo, Seq::empty(), Some(address), port),
            ),
        ),
        GossipTypes::ProcessServerInfo => (
            peers.push(inbound_peer(stream_id, remote_addr, m.port)),
            ReactionView { broadcast: spec_broadcast(peers, stream_id, m.port), ..quiet() },
        ),
        GossipTypes::ProcessNewPeer => (
            peers,
            ReactionView {
                connect_to: if !knows_port(peers, m.port) && port != m.port {
                    Some(m.port)
                } else {
                    None
                },
                ..quiet()
            },
        ),
        GossipTypes::HandleTask => (peers, ReactionView { task: Some(m.body), ..quiet() }),
    }
}

fn no_reaction() -> (r: Reaction)
    ensures
        r@ == quiet(),
{
    let r = Reaction { delay_ms: 0, reply: None, broadcast: Vec::new(), connect_to: None, task: None };
    assert(r@.broadcast =~= Seq::<(SockAddr, Seq<u8>)>::empty());
    r
}

fn answer_with(delay_ms: u64, m: Message) -> (r: Reaction)
    ensures
        r@ == answer(delay_ms, m@),
{
    let r = Reaction {
        delay_ms,
        reply: Some(m.marshall()),
        broadcast: Vec::new(),
        connect_to: None,
        task: None,
    };
    assert(r@.broadcast =~= Seq::<(SockAddr, Seq<u8>)>::empty());
    r
}

fn has_peer_on_port(peers: &Vec<Peer>, port: u16) -> (found: bool)
    ensures
        found == knows_port(peers@, port),
{
    let mut found = false;
    let mut i: usize = 0;
    while i < peers.len()
        invariant
            i <= peers@.len(),
            found == (exists|j: int| 0 <= j < i && peers@[j].port == port),
        decreases peers@.len() - i,
    {
        if peers[i].port == port {
            found = true;
        }
        i = i + 1;
    }
    found
}

/// Reacts to message `message` that arrived on connection `stream_id` from
/// `remote_addr`.
pub fn handle(server: &mut Server, message: &Message, stream_id: SockAddr, remote_addr: SockAddr) -> (r: Reaction)
    ensures
        final(server).address == old(server).address,
        final(server).port == old(server).port,
        (final(server).peers@, r@) == spec_handle(
            old(server).address,
            old(server).port,
            old(server).peers@,
            message@,
            stream_id,
            remote_addr,
        ),
{
    let address = server.address;
    let port = server.port;
    match message.gossip_type {
        GossipTypes::Ping => {
            answer_with(PING_DELAY_MS, Message::new(GossipTypes::Pong, "Ponging", Some(address), port))
        },
        GossipTypes::Pong => {
            answer_with(0, Message::new(GossipTypes::Ping, "Pinging", Some(address), port))
        },
        GossipTypes::RequestServerInfo => {
            proof {
                reveal_strlit("");
                assert(""@ =~= Seq::<char>::empty());
            }
            answer_with(0, Message::new(GossipTypes::ProcessServerInfo, "", Some(address), port))
        },
        GossipTypes::ProcessServerInfo => {
            let new_peer_port = message.body.peer_info.port;
            let broadcast = server.broadcast_to_peers(stream_id, new_peer_port);
            server.add_peer(
                Peer {
                    stream_id,
                    direction: PeerDirection::Inbound,
                    address: Some(remote_addr.ip),
                    port: new_peer_port,
                },
            );
            Reaction { delay_ms: 0, reply: None, broadcast, connect_to: None, task: None }
        },
        GossipTypes::ProcessNewPeer => {
            let p = message.body.peer_info.port;
            let found = has_peer_on_port(&server.peers, p);
            let mut r = no_reaction();
            if !found && port != p {
                r.connect_to = Some(p);
            }
            r
        },
        GossipTypes::HandleTask => {
            let mut r = no_reaction();
            r.task = Some(message.body.body.clone());
            r
        },
    }
}

/// The type of the answer to a message of type `t`, if it is answered:
/// a ping with a pong, a pong with a ping, a request for server information
/// with that information.
pub open spec fn answer_type(t: GossipTypes) -> Option<GossipTypes> {
    match t {
        GossipTypes::Ping => Some(GossipTypes::Pong),
        GossipTypes::Pong => Some(GossipTypes::Ping),
        GossipTypes::RequestServerInfo => Some(GossipTypes::ProcessServerInfo),
        _ => None,
    }
}

/// A node answers exactly the pings, pongs and server-information requests;
/// the answer decodes, on the other side, to a message of the answering type
/// that names the node's own address and port.
pub proof fn lemma_answers(
    address: Ip,
    port: u16,
    peers: Seq<Peer>,
    m: MessageView,
    stream_id: SockAddr,
    remote_addr: SockAddr,
)
    ensures
        ({
            let r = spec_handle(address, port, peers, m, stream_id, remote_addr).1;
            &&& (r.reply is Some <==> answer_type(m.gossip_type) is Some)
            &&& r.reply matches Some(b) ==> spec_unmarshall(b) matches Ok(a) && Some(a.gossip_type)
                == answer_type(m.gossip_type) && a.address == Some(address) && a.port == port
        }),
{
    match m.gossip_type {
        GossipTypes::Ping => lemma_unmarshall_marshall(
            message_view(GossipTypes::Pong, "Ponging"@, Some(address), port),
        ),
        GossipTypes::Pong => lemma_unmarshall_marshall(
            message_view(GossipTypes::Ping, "Pinging"@, Some(address), port),
        ),
        GossipTypes::RequestServerInfo => lemma_unmarshall_marshall(
            message_view(GossipTypes::ProcessServerInfo, Seq::empty(), Some(address), port),
        ),
        _ => {},
    }
}

/// A node asks to connect only to a port that is not its own and on which
/// no known peer listens; it asks so only on news of a new peer.
pub proof fn lemma_connects_only_to_new_ports(
    address: Ip,
    port: u16,
    peers: Seq<Peer>,
    m: MessageView,
    stream_id: SockAddr,
    remote_addr: SockAddr,
)
    ensures
        spec_handle(address, port, peers, m, stream_id, remote_addr).1.connect_to matches Some(p) ==> {
            &&& p != port
            &&& !knows_port(peers, p)
            &&& p == m.port
            &&& m.gossip_type == GossipTypes::ProcessNewPeer
        },
{
}

/// Only a peer's server information changes the peer list, and it appends
/// exactly one inbound peer: the connection it came on, with the port it
/// announces.
pub proof fn lemma_peer_list_changes(
    address: Ip,
    port: u16,
    peers: Seq<Peer>,
    m: MessageView,
    stream_id: SockAddr,
    remote_addr: SockAddr,
)
    ensures
        ({
            let after = spec_handle(address, port, peers, m, stream_id, remote_addr).0;
            &&& m.gossip_type != GossipTypes::ProcessServerInfo ==> after == peers
            &&& m.gossip_type == GossipTypes::ProcessServerInfo ==> after == peers.push(
                inbound_peer(stream_id, remote_addr, m.port),
            )
        }),
{
}

/// When a peer sends its server information, every other connected peer,
/// and only those, is told about it: each notice goes to a connection other
/// than the sender's and decodes to news of a new peer on 127.0.0.1 with
/// the announced port.
pub proof fn lemma_new_peer_is_announced(
    address: Ip,
    port: u16,
    peers: Seq<Peer>,
    m: MessageView,
    stream_id: SockAddr,
    remote_addr: SockAddr,
)
    requires
        m.gossip_type == GossipTypes::ProcessServerInfo,
    ensures
        ({
            let out = spec_handle(address, port, peers, m, stream_id, remote_addr).1.broadcast;
            &&& forall|k: int| 0 <= k < out.len() ==> {
                &&& (#[trigger] out[k]).0 != stream_id
                &&& spec_unmarshall(out[k].1) == Ok::<MessageView, DecodeError>(
                    MessageView {
                        gossip_type: GossipTypes::ProcessNewPeer,
                        address: Some(Ip::V4(127, 0, 0, 1)),
                        port: m.port,
                        body: Seq::empty(),
                    },
                )
            }
            &&& forall|i: int| 0 <= i < peers.len() && #[trigger] peers[i].stream_id != stream_id
                ==> exists|k: int| 0 <= k < out.len() && out[k].0 == peers[i].stream_id
        }),
{
    lemma_broadcast_targets(peers, stream_id);
    lemma_unmarshall_marshall(new_peer_notice(m.port));
    let t = broadcast_targets(peers, stream_id);
    let out = spec_handle(address, port, peers, m, stream_id, remote_addr).1.broadcast;
    assert forall|k: int| 0 <= k < out.len() implies {
        &&& (#[trigger] out[k]).0 != stream_id
        &&& spec_unmarshall(out[k].1) == Ok::<MessageView, DecodeError>(
            MessageView {
                gossip_type: GossipTypes::ProcessNewPeer,
                address: Some(Ip::V4(127, 0, 0, 1)),
                port: m.port,
                body: Seq::empty(),
            },
        )
    } by {
        assert(out[k].0 == t[k]);
    }
    assert forall|i: int| 0 <= i < peers.len() && #[trigger] peers[i].stream_id != stream_id
        implies exists|k: int| 0 <= k < out.len() && out[k].0 == peers[i].stream_id by {
        assert(t.contains(peers[i].stream_id));
        let k = choose|k: int| 0 <= k < t.len() && t[k] == peers[i].stream_id;
        assert(out[k].0 == t[k]);
    }
}

/// The handshake records the joining peer: when a node greets a new
/// connection and the other side answers the greeting, the greeting node,
/// on reading that answer, records the other side as an inbound peer on
/// that connection, listening on the other side's own port.
pub proof fn lemma_handshake_records_joining_peer(
    address: Ip,
    port: u16,
    peers: Seq<Peer>,
    other_address: Ip,
    other_port: u16,
    other_peers: Seq<Peer>,
    stream_id: SockAddr,
    remote_addr: SockAddr,
    other_stream_id: SockAddr,
    other_remote_addr: SockAddr,
)
    ensures
        ({
            let answer = spec_handle(
                other_address,
                other_port,
                other_peers,
                handshake_view(address, port),
                other_stream_id,
                other_remote_addr,
            ).1.reply;
            &&& answer is Some
            &&& spec_unmarshall(answer->0) matches Ok(m) && spec_handle(
                address,
                port,
                peers,
                m,
                stream_id,
                remote_addr,
            ).0 == peers.push(inbound_peer(stream_id, remote_addr, other_port))
        }),
{
    lemma_unmarshall_marshall(
        message_view(GossipTypes::ProcessServerInfo, Seq::empty(), Some(other_address), other_port),
    );
}

/// News of a new peer is acted on: when a message announces a port on
/// which no known peer listens and which is not the node's own, the node
/// asks to connect to exactly that port. Together with
/// `lemma_connects_only_to_new_ports`, a node asks to connect exactly when
/// such news arrives.
pub proof fn lemma_connects_to_every_new_port(
    address: Ip,
    port: u16,
    peers: Seq<Peer>,
    m: MessageView,
    stream_id: SockAddr,
    remote_addr: SockAddr,
)
    requires
        m.gossip_type == GossipTypes::ProcessNewPeer,
        forall|i: int| 0 <= i < peers.len() ==> peers[i].port != m.port,
        m.port != port,
    ensures
        spec_handle(address, port, peers, m, stream_id, remote_addr).1.connect_to == Some(m.port),
{
}

/// Every task message is run, whoever it says sent it: the reaction runs
/// exactly the message's body, and does nothing else — no wait, no reply,
/// no broadcast, no connection — and the peer list is unchanged.
pub proof fn lemma_every_task_is_run(
    address: Ip,
    port: u16,
    peers: Seq<Peer>,
    m: MessageView,
    stream_id: SockAddr,
    remote_addr: SockAddr,
)
    requires
        m.gossip_type == GossipTypes::HandleTask,
    ensures
        ({
            let (after, r) = spec_handle(address, port, peers, m, stream_id, remote_addr);
            &&& after == peers
            &&& r.task == Some(m.body)
            &&& r.delay_ms == 0
            &&& r.reply is None
            &&& r.broadcast.len() == 0
            &&& r.connect_to is None
        }),
{
}

/// Only a peer's server information is announced to other peers: the
/// reaction to any other message broadcasts nothing, and only a task
/// message carries a task.
pub proof fn lemma_only_server_info_is_broadcast(
    address: Ip,
    port: u16,
    peers: Seq<Peer>,
    m: MessageView,
    stream_id: SockAddr,
    remote_addr: SockAddr,
)
    ensures
        ({
            let r = spec_handle(address, port, peers, m, stream_id, remote_addr).1;
            &&& m.gossip_type != GossipTypes::ProcessServerInfo ==> r.broadcast.len() == 0
            &&& m.gossip_type != GossipTypes::HandleTask ==> r.task is None
        }),
{
}

/// The exact answers: a ping is answered, after `PING_DELAY_MS`, with a
/// pong reading "Ponging"; a pong at once with a ping reading "Pinging"; a
/// server-information request at once with the node's server information,
/// with an empty body. Each names the node's address and port, and the
/// answer is all the node does.
pub proof fn lemma_exact_answers(
    address: Ip,
    port: u16,
    peers: Seq<Peer>,
    m: MessageView,
    stream_id: SockAddr,
    remote_addr: SockAddr,
)
    requires
        answer_type(m.gossip_type) is Some,
    ensures
        ({
            let (after, r) = spec_handle(address, port, peers, m, stream_id, remote_addr);
            let body = if m.gossip_type == GossipTypes::Ping {
                "Ponging"@
            } else if m.gossip_type == GossipTypes::Pong {
                "Pinging"@
            } else {
                Seq::<char>::empty()
            };
            &&& after == peers
            &&& r.delay_ms == (if m.gossip_type == GossipTypes::Ping { 2000u64 } else { 0u64 })
            &&& r.reply matches Some(b) && spec_unmarshall(b) == Ok::<MessageView, DecodeError>(
                MessageView {
                    gossip_type: answer_type(m.gossip_type)->0,
                    address: Some(address),
                    port,
                    body,
                },
            )
            &&& r.broadcast.len() == 0
            &&& r.connect_to is None
            &&& r.task is None
        }),
{
    match m.gossip_type {
        GossipTypes::Ping => lemma_unmarshall_marshall(
            message_view(GossipTypes::Pong, "Ponging"@, Some(address), port),
        ),
        GossipTypes::Pong => lemma_unmarshall_marshall(
            message_view(GossipTypes::Ping, "Pinging"@, Some(address), port),
        ),
        _ => lemma_unmarshall_marshall(
            message_view(GossipTypes::ProcessServerInfo, Seq::empty(), Some(address), port),
        ),
    }
}

/// Server information from a peer is not answered and starts no connection
/// or task: the node only records the peer and tells the others.
pub proof fn lemma_server_info_is_not_answered(
    address: Ip,
    port: u16,
    peers: Seq<Peer>,
    m: MessageView,
    stream_id: SockAddr,
    remote_addr: SockAddr,
)
    requires
        m.gossip_type == GossipTypes::ProcessServerInfo,
    ensures
        ({
            let r = spec_handle(address, port, peers, m, stream_id, remote_addr).1;
            &&& r.delay_ms == 0
            &&& r.reply is None
            &&& r.connect_to is None
            &&& r.task is None
        }),
{
}

/// News of a peer is never answered and changes nothing but, possibly, a
/// request to connect.
pub proof fn lemma_new_peer_news_is_not_answered(
    address: Ip,
    port: u16,
    peers: Seq<Peer>,
    m: MessageView,
    stream_id: SockAddr,
    remote_addr: SockAddr,
)
    requires
        m.gossip_type == GossipTypes::ProcessNewPeer,
    ensures
        ({
            let (after, r) = spec_handle(address, port, peers, m, stream_id, remote_addr);
            &&& after == peers
            &&& r.delay_ms == 0
            &&& r.reply is None
            &&& r.broadcast.len() == 0
            &&& r.task is None
        }),
{
}

} // verus!
