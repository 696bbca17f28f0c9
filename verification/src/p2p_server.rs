//! The state of a peer-to-peer node and the messages it sends on its own.
use vstd::prelude::*;
use crate::message::{
    lemma_unmarshall_marshall, spec_marshall, spec_unmarshall, message_view, DecodeError, GossipTypes,
    Message, MessageView,
};
use crate::net::{localhost, spec_localhost, Ip, SockAddr};
use crate::peer::Peer;
use crate::text::{decimal, to_decimal_string};

verus! {

/// The port of the peer that every node tries to join when it starts.
pub const BOOTSTRAP_PORT: u16 = 3002;

/// The id that a node answers a task submission with.
pub const TASK_REPLY_ID: u32 = 12;

/// A message to be written to the connection of one peer.
#[derive(Debug)]
pub struct Outgoing {
    pub to: SockAddr,
    pub payload: Vec<u8>,
}

impl View for Outgoing {
    type V = (SockAddr, Seq<u8>);

    open spec fn view(&self) -> (SockAddr, Seq<u8>) {
        (self.to, self.payload@)
    }
}

/// The views of a vector of outgoing messages.
pub open spec fn outgoing_views(v: Seq<Outgoing>) -> Seq<(SockAddr, Seq<u8>)> {
    v.map_values(|o: Outgoing| o@)
}

/// A peer-to-peer node: where it listens and whom it is connected to.
#[derive(Debug)]
pub struct Server {
    pub address: Ip,
    pub port: u16,
    pub peers: Vec<Peer>,
}

/// The node behind the handle that the command line starts.
#[derive(Debug)]
pub struct ServerWrapper {
    pub inner: Server,
}

impl ServerWrapper {
    /// A node listening on `address`:`port` with no peers yet.
    pub fn new(address: Ip, port: u16) -> (w: ServerWrapper)
        ensures
            w.inner.address == address,
            w.inner.port == port,
            w.inner.peers@ == Seq::<Peer>::empty(),
    {
        ServerWrapper { inner: Server { address, port, peers: Vec::new() } }
    }
}

/// The notice, sent to other peers, that a node listening on
/// 127.0.0.1:`port` has joined.
pub open spec fn new_peer_notice(port: u16) -> MessageView {
    message_view(GossipTypes::ProcessNewPeer, Seq::empty(), Some(spec_localhost()), port)
}

/// The connections that a broadcast from stream `sid` goes to: every peer's
/// connection but `sid` itself, in peer order.
pub open spec fn broadcast_targets(peers: Seq<Peer>, sid: SockAddr) -> Seq<SockAddr>
    decreases peers.len(),
{
    if peers.len() == 0 {
        Seq::empty()
    } else {
        let rest = broadcast_targets(peers.drop_last(), sid);
        if peers.last().stream_id != sid {
            rest.push(peers.last().stream_id)
        } else {
            rest
        }
    }
}

/// The messages of a broadcast from stream `sid` announcing `port`.
pub open spec fn spec_broadcast(peers: Seq<Peer>, sid: SockAddr, port: u16) -> Seq<(SockAddr, Seq<u8>)> {
    broadcast_targets(peers, sid).map_values(|to: SockAddr| (to, spec_marshall(new_peer_notice(port))))
}

/// The task message for the peer at position `i`: its index as text, sent
/// from 127.0.0.1 with the peer's own port.
pub open spec fn task_message(peers: Seq<Peer>, i: int) -> MessageView {
    message_view(GossipTypes::HandleTask, decimal(i as nat), Some(spec_localhost()), peers[i].port)
}

/// The messages that hand a task to every peer, one per peer, in order.
pub open spec fn spec_dispatch(peers: Seq<Peer>) -> Seq<(SockAddr, Seq<u8>)> {
    Seq::new(peers.len(), |i: int| (peers[i].stream_id, spec_marshall(task_message(peers, i))))
}

/// The greeting a node sends on every connection it accepts.
pub open spec fn handshake_view(address: Ip, port: u16) -> MessageView {
    message_view(GossipTypes::RequestServerInfo, "handshake_init"@, Some(address), port)
}

/// Whether `i` is the position of the first peer on connection `sid`.
pub open spec fn is_first_on_stream(peers: Seq<Peer>, sid: SockAddr, i: int) -> bool {
    &&& 0 <= i < peers.len()
    &&& peers[i].stream_id == sid
    &&& forall|j: int| 0 <= j < i ==> peers[j].stream_id != sid
}

/// Whether no peer is on connection `sid`.
pub open spec fn no_peer_on_stream(peers: Seq<Peer>, sid: SockAddr) -> bool {
    forall|j: int| 0 <= j < peers.len() ==> peers[j].stream_id != sid
}

impl Server {
    /// The notices that a peer listening on `broadcast_port` has joined,
    /// one for every connection but `stream_id`.
    pub fn broadcast_to_peers(&self, stream_id: SockAddr, broadcast_port: u16) -> (out: Vec<Outgoing>)
        ensures
            outgoing_views(out@) == spec_broadcast(self.peers@, stream_id, broadcast_port),
    {
        let notice = Message::new(GossipTypes::ProcessNewPeer, "", Some(localhost()), broadcast_port);
        proof {
            reveal_strlit("");
            assert(""@ =~= Seq::<char>::empty());
        }
        assert(notice@ == new_peer_notice(broadcast_port));
        let payload = notice.marshall();
        let mut out: Vec<Outgoing> = Vec::new();
        let mut i: usize = 0;
        while i < self.peers.len()
            invariant
                i <= self.peers@.len(),
                payload@ == spec_marshall(new_peer_notice(broadcast_port)),
                outgoing_views(out@) == spec_broadcast(self.peers@.take(i as int), stream_id, broadcast_port),
            decreases self.peers@.len() - i,
        {
            let peer = self.peers[i];
            assert(self.peers@.take(i + 1).drop_last() =~= self.peers@.take(i as int));
            let ghost prev = out@;
            if peer.stream_id != stream_id {
                let copy = payload.clone();
                assert(copy@ =~= payload@);
                out.push(Outgoing { to: peer.stream_id, payload: copy });
                assert(outgoing_views(out@) =~= outgoing_views(prev).push((peer.stream_id, payload@)));
            }
            i = i + 1;
            assert(outgoing_views(out@) =~= spec_broadcast(self.peers@.take(i as int), stream_id, broadcast_port));
        }
        assert(self.peers@.take(i as int) =~= self.peers@);
        out
    }

    /// The task messages for all peers: the peer at position `i` gets its
    /// index as text, sent from 127.0.0.1 with the peer's own port.
    pub fn dispatch_tasks(&self) -> (out: Vec<Outgoing>)
        ensures
            outgoing_views(out@) == spec_dispatch(self.peers@),
    {
        let mut out: Vec<Outgoing> = Vec::new();
        let mut i: usize = 0;
        while i < self.peers.len()
            invariant
                i <= self.peers@.len(),
                outgoing_views(out@) == spec_dispatch(self.peers@).take(i as int),
            decreases self.peers@.len() - i,
        {
            let peer = self.peers[i];
            let index = to_decimal_string(i as u64);
            let message = Message::new(GossipTypes::HandleTask, index.as_str(), Some(localhost()), peer.port);
            assert(message@ == task_message(self.peers@, i as int));
            let ghost prev = out@;
            out.push(Outgoing { to: peer.stream_id, payload: message.marshall() });
            assert(outgoing_views(out@) =~= outgoing_views(prev).push(spec_dispatch(self.peers@)[i as int]));
            i = i + 1;
            assert(outgoing_views(out@) =~= spec_dispatch(self.peers@).take(i as int));
        }
        assert(spec_dispatch(self.peers@).take(i as int) =~= spec_dispatch(self.peers@));
        out
    }

    /// The greeting sent on every accepted connection: a request for the
    /// other side's server information, from this node's address and port.
    pub fn handshake(&self) -> (b: Vec<u8>)
        ensures
            b@ == spec_marshall(handshake_view(self.address, self.port)),
    {
        Message::new(GossipTypes::RequestServerInfo, "handshake_init", Some(self.address), self.port).marshall()
    }

    /// Adds a peer at the end of the peer list.
    pub fn add_peer(&mut self, peer: Peer)
        ensures
            final(self).address == old(self).address,
            final(self).port == old(self).port,
            final(self).peers@ == old(self).peers@.push(peer),
    {
        self.peers.push(peer);
    }

    /// Forgets the first peer on connection `stream_id`, if any.
    pub fn remove_peer(&mut self, stream_id: SockAddr)
        ensures
            final(self).address == old(self).address,
            final(self).port == old(self).port,
            forall|i: int| #[trigger] is_first_on_stream(old(self).peers@, stream_id, i)
                ==> final(self).peers@ == old(self).peers@.remove(i),
            no_peer_on_stream(old(self).peers@, stream_id) ==> final(self).peers@ == old(self).peers@,
    {
        let mut i: usize = 0;
        while i < self.peers.len()
            invariant
                i <= self.peers@.len(),
                self.peers@ == old(self).peers@,
                self.address == old(self).address,
                self.port == old(self).port,
                forall|j: int| 0 <= j < i ==> self.peers@[j].stream_id != stream_id,
            decreases self.peers@.len() - i,
        {
            if self.peers[i].stream_id == stream_id {
                assert(is_first_on_stream(old(self).peers@, stream_id, i as int));
                assert forall|k: int| #[trigger] is_first_on_stream(old(self).peers@, stream_id, k)
                    implies k == i by {
                    if k < i {
                    } else if k > i {
                        assert(old(self).peers@[i as int].stream_id == stream_id);
                    }
                }
                self.peers.remove(i);
                return;
            }
            i = i + 1;
        }
        assert forall|k: int| #[trigger] is_first_on_stream(old(self).peers@, stream_id, k)
            implies false by {
            assert(old(self).peers@[k].stream_id != stream_id);
        }
    }
}

/// A broadcast never goes back to the connection it came from, and goes to
/// each other peer's connection: every target is some peer's connection
/// other than `sid`, and every peer on another connection is a target.
pub proof fn lemma_broadcast_targets(peers: Seq<Peer>, sid: SockAddr)
    ensures
        forall|k: int| 0 <= k < broadcast_targets(peers, sid).len() ==> {
            &&& #[trigger] broadcast_targets(peers, sid)[k] != sid
            &&& exists|i: int| 0 <= i < peers.len() && peers[i].stream_id == broadcast_targets(peers, sid)[k]
        },
        forall|i: int| 0 <= i < peers.len() && #[trigger] peers[i].stream_id != sid
            ==> broadcast_targets(peers, sid).contains(peers[i].stream_id),
        broadcast_targets(peers, sid).len() <= peers.len(),
    decreases peers.len(),
{
    if peers.len() > 0 {
        let init = peers.drop_last();
        lemma_broadcast_targets(init, sid);
        let t = broadcast_targets(peers, sid);
        let ti = broadcast_targets(init, sid);
        assert forall|k: int| 0 <= k < t.len() implies {
            &&& #[trigger] t[k] != sid
            &&& exists|i: int| 0 <= i < peers.len() && peers[i].stream_id == t[k]
        } by {
            if k < ti.len() {
                assert(t[k] == ti[k]);
                let i = choose|i: int| 0 <= i < init.len() && init[i].stream_id == ti[k];
                assert(peers[i] == init[i]);
            } else {
                assert(peers[peers.len() - 1].stream_id == t[k]);
            }
        }
        assert forall|i: int| 0 <= i < peers.len() && #[trigger] peers[i].stream_id != sid
            implies t.contains(peers[i].stream_id) by {
            if i < init.len() {
                assert(init[i] == peers[i]);
                let k = choose|k: int| 0 <= k < ti.len() && ti[k] == init[i].stream_id;
                assert(t[k] == ti[k]);
            } else {
                assert(t[t.len() - 1] == peers[i].stream_id);
            }
        }
    }
}

/// Every peer gets a task, whatever its direction: the dispatch has one
/// message per peer, and the `k`-th goes to the `k`-th peer's connection and
/// decodes to a task whose body is the text of `k`, sent from 127.0.0.1 with
/// that peer's port.
pub proof fn lemma_every_peer_gets_a_task(peers: Seq<Peer>)
    ensures
        spec_dispatch(peers).len() == peers.len(),
        forall|k: int| 0 <= k < peers.len() ==> {
            &&& (#[trigger] spec_dispatch(peers)[k]).0 == peers[k].stream_id
            &&& spec_unmarshall(spec_dispatch(peers)[k].1) == Ok::<MessageView, DecodeError>(
                MessageView {
                    gossip_type: GossipTypes::HandleTask,
                    address: Some(Ip::V4(127, 0, 0, 1)),
                    port: peers[k].port,
                    body: decimal(k as nat),
                },
            )
        },
{
    assert forall|k: int| 0 <= k < peers.len() implies {
        &&& (#[trigger] spec_dispatch(peers)[k]).0 == peers[k].stream_id
        &&& spec_unmarshall(spec_dispatch(peers)[k].1) == Ok::<MessageView, DecodeError>(
            MessageView {
                gossip_type: GossipTypes::HandleTask,
                address: Some(Ip::V4(127, 0, 0, 1)),
                port: peers[k].port,
                body: decimal(k as nat),
            },
        )
    } by {
        lemma_unmarshall_marshall(task_message(peers, k));
    }
}

/// A broadcast from stream `sid` goes, in peer order, to exactly the
/// connections of the peers that are not on `sid`, once per such peer.
pub proof fn lemma_broadcast_is_filtered_peers(peers: Seq<Peer>, sid: SockAddr)
    ensures
        broadcast_targets(peers, sid) == peers.filter(|p: Peer| p.stream_id != sid).map_values(
            |p: Peer| p.stream_id,
        ),
    decreases peers.len(),
{
    let pred = |p: Peer| p.stream_id != sid;
    let f = |p: Peer| p.stream_id;
    reveal_with_fuel(Seq::<Peer>::filter, 1);
    if peers.len() == 0 {
        assert(peers.filter(pred) =~= Seq::<Peer>::empty());
        assert(peers.filter(pred).map_values(f) =~= Seq::<SockAddr>::empty());
    } else {
        lemma_broadcast_is_filtered_peers(peers.drop_last(), sid);
        assert(peers.filter(pred) == if pred(peers.last()) {
            peers.drop_last().filter(pred).push(peers.last())
        } else {
            peers.drop_last().filter(pred)
        });
        if pred(peers.last()) {
            assert(peers.filter(pred).map_values(f) =~= peers.drop_last().filter(pred).map_values(
                f,
            ).push(peers.last().stream_id));
        }
    }
}

} // verus!
