use bitfab::message::{DecodeError, GossipTypes, Message};
use bitfab::net::{Ip, SockAddr};
use bitfab::p2p_routes::{handle, PING_DELAY_MS};
use bitfab::p2p_server::{Server, ServerWrapper, BOOTSTRAP_PORT, TASK_REPLY_ID};
use bitfab::p2p_utils::{connect_to_peer, handle_connection, register_outbound, ConnStep, ConnectError};
use bitfab::peer::{Peer, PeerDirection};

fn sock(last: u8, port: u16) -> SockAddr {
    SockAddr { ip: Ip::V4(127, 0, 0, last), port }
}

fn peer(stream: SockAddr, port: u16) -> Peer {
    Peer { stream_id: stream, direction: PeerDirection::Inbound, address: Some(stream.ip), port }
}

fn node_with_peers(peers: Vec<Peer>) -> Server {
    let mut w = ServerWrapper::new(Ip::V4(127, 0, 0, 1), 3001);
    for p in peers {
        w.inner.add_peer(p);
    }
    w.inner
}

fn decode(b: &[u8]) -> Message {
    Message::unmarshall(b).unwrap()
}

#[test]
fn wrapper_starts_without_peers() {
    let w = ServerWrapper::new(Ip::V4(10, 0, 0, 1), 4001);
    assert_eq!(w.inner.address, Ip::V4(10, 0, 0, 1));
    assert_eq!(w.inner.port, 4001);
    assert!(w.inner.peers.is_empty());
    assert_eq!(BOOTSTRAP_PORT, 3002);
    assert_eq!(TASK_REPLY_ID, 12);
}

#[test]
fn handshake_requests_server_info() {
    let s = node_with_peers(vec![]);
    let m = decode(&s.handshake());
    assert_eq!(m.gossip_type, GossipTypes::RequestServerInfo);
    assert_eq!(m.body.body, "handshake_init");
    assert_eq!(m.body.peer_info.address, Some(Ip::V4(127, 0, 0, 1)));
    assert_eq!(m.body.peer_info.port, 3001);
}

#[test]
fn broadcast_skips_origin() {
    let a = sock(2, 50000);
    let b = sock(3, 50001);
    let c = sock(4, 50002);
    let s = node_with_peers(vec![peer(a, 3003), peer(b, 3004), peer(c, 3005)]);
    let out = s.broadcast_to_peers(b, 3009);
    assert_eq!(out.len(), 2);
    assert_eq!(out[0].to, a);
    assert_eq!(out[1].to, c);
    for o in &out {
        let m = decode(&o.payload);
        assert_eq!(m.gossip_type, GossipTypes::ProcessNewPeer);
        assert_eq!(m.body.body, "");
        assert_eq!(m.body.peer_info.address, Some(Ip::V4(127, 0, 0, 1)));
        assert_eq!(m.body.peer_info.port, 3009);
    }
    assert!(node_with_peers(vec![]).broadcast_to_peers(a, 1).is_empty());
}

#[test]
fn tasks_go_to_every_peer_with_index() {
    let a = sock(2, 50000);
    let b = sock(3, 50001);
    let s = node_with_peers(vec![peer(a, 3003), peer(b, 3004)]);
    let out = s.dispatch_tasks();
    assert_eq!(out.len(), 2);
    assert_eq!(out[0].to, a);
    assert_eq!(out[1].to, b);
    let m0 = decode(&out[0].payload);
    let m1 = decode(&out[1].payload);
    assert_eq!(m0.gossip_type, GossipTypes::HandleTask);
    assert_eq!(m0.body.body, "0");
    assert_eq!(m0.body.peer_info.port, 3003);
    assert_eq!(m1.body.body, "1");
    assert_eq!(m1.body.peer_info.port, 3004);
    assert_eq!(m1.body.peer_info.address, Some(Ip::V4(127, 0, 0, 1)));
}

#[test]
fn remove_peer_forgets_first_match_only() {
    let a = sock(2, 50000);
    let b = sock(3, 50001);
    let mut s = node_with_peers(vec![peer(a, 1), peer(b, 2), peer(a, 3)]);
    s.remove_peer(a);
    assert_eq!(s.peers, vec![peer(b, 2), peer(a, 3)]);
    s.remove_peer(sock(9, 9));
    assert_eq!(s.peers, vec![peer(b, 2), peer(a, 3)]);
}

#[test]
fn ping_is_answered_with_pong_after_delay() {
    let mut s = node_with_peers(vec![]);
    let ping = Message::new(GossipTypes::Ping, "Pinging", Some(Ip::V4(127, 0, 0, 1)), 3003);
    let r = handle(&mut s, &ping, sock(2, 50000), sock(2, 50000));
    assert_eq!(r.delay_ms, PING_DELAY_MS);
    assert_eq!(PING_DELAY_MS, 2000);
    let m = decode(r.reply.as_ref().unwrap());
    assert_eq!(m.gossip_type, GossipTypes::Pong);
    assert_eq!(m.body.body, "Ponging");
    assert_eq!(m.body.peer_info.address, Some(Ip::V4(127, 0, 0, 1)));
    assert_eq!(m.body.peer_info.port, 3001);
    assert!(r.broadcast.is_empty());
    assert_eq!(r.connect_to, None);
    assert!(s.peers.is_empty());
}

#[test]
fn pong_is_answered_with_ping() {
    let mut s = node_with_peers(vec![]);
    let pong = Message::new(GossipTypes::Pong, "Ponging", None, 3003);
    let r = handle(&mut s, &pong, sock(2, 50000), sock(2, 50000));
    assert_eq!(r.delay_ms, 0);
    let m = decode(r.reply.as_ref().unwrap());
    assert_eq!(m.gossip_type, GossipTypes::Ping);
    assert_eq!(m.body.body, "Pinging");
}

#[test]
fn server_info_request_is_answered() {
    let mut s = node_with_peers(vec![]);
    let req = Message::new(GossipTypes::RequestServerInfo, "handshake_init", None, 3003);
    let r = handle(&mut s, &req, sock(2, 50000), sock(2, 50000));
    let m = decode(r.reply.as_ref().unwrap());
    assert_eq!(m.gossip_type, GossipTypes::ProcessServerInfo);
    assert_eq!(m.body.body, "");
    assert_eq!(m.body.peer_info.port, 3001);
}

#[test]
fn server_info_adds_inbound_peer_and_announces_it() {
    let a = sock(2, 50000);
    let b = sock(3, 50001);
    let mut s = node_with_peers(vec![peer(a, 3003)]);
    let info = Message::new(GossipTypes::ProcessServerInfo, "", Some(Ip::V4(1, 2, 3, 4)), 3004);
    let r = handle(&mut s, &info, b, b);
    assert!(r.reply.is_none());
    assert_eq!(r.broadcast.len(), 1);
    assert_eq!(r.broadcast[0].to, a);
    assert_eq!(decode(&r.broadcast[0].payload).body.peer_info.port, 3004);
    assert_eq!(
        s.peers[1],
        Peer { stream_id: b, direction: PeerDirection::Inbound, address: Some(b.ip), port: 3004 }
    );
    assert_eq!(s.peers.len(), 2);
}

#[test]
fn new_peer_news_leads_to_connect_only_when_unknown() {
    let a = sock(2, 50000);
    let mut s = node_with_peers(vec![peer(a, 3003)]);
    let known = Message::new(GossipTypes::ProcessNewPeer, "", None, 3003);
    assert_eq!(handle(&mut s, &known, a, a).connect_to, None);
    let own = Message::new(GossipTypes::ProcessNewPeer, "", None, 3001);
    assert_eq!(handle(&mut s, &own, a, a).connect_to, None);
    let fresh = Message::new(GossipTypes::ProcessNewPeer, "", None, 3007);
    assert_eq!(handle(&mut s, &fresh, a, a).connect_to, Some(3007));
    assert_eq!(s.peers.len(), 1);
}

#[test]
fn task_message_carries_task() {
    let mut s = node_with_peers(vec![]);
    let t = Message::new(GossipTypes::HandleTask, "3", None, 3001);
    let r = handle(&mut s, &t, sock(2, 1), sock(2, 1));
    assert_eq!(r.task.as_deref(), Some("3"));
    assert!(r.reply.is_none());
}

#[test]
fn connecting_to_self_is_refused() {
    let s = node_with_peers(vec![]);
    let e = connect_to_peer(&s, 3001).unwrap_err();
    assert_eq!(e, ConnectError::SelfConnect);
    assert_eq!(e.describe(), "Connecting to self ignoring");
    assert_eq!(connect_to_peer(&s, 3002).unwrap(), SockAddr { ip: Ip::V4(127, 0, 0, 1), port: 3002 });
}

#[test]
fn outbound_connection_is_recorded() {
    let mut s = node_with_peers(vec![]);
    let remote = sock(1, 3002);
    register_outbound(&mut s, remote, 3002);
    assert_eq!(
        s.peers,
        vec![Peer { stream_id: remote, direction: PeerDirection::Outbound, address: None, port: 3002 }]
    );
}

#[test]
fn connection_reads() {
    let a = sock(2, 50000);
    let mut s = node_with_peers(vec![peer(a, 3003)]);
    match handle_connection(&mut s, &[9, 9], a, a) {
        ConnStep::Undecodable(e) => assert_eq!(e, DecodeError::UnknownType),
        other => panic!("unexpected {:?}", other),
    }
    let ping = Message::new(GossipTypes::Ping, "", None, 3003).marshall();
    match handle_connection(&mut s, &ping, a, a) {
        ConnStep::Handled(r) => assert_eq!(decode(r.reply.as_ref().unwrap()).gossip_type, GossipTypes::Pong),
        other => panic!("unexpected {:?}", other),
    }
    assert_eq!(s.peers.len(), 1);
    match handle_connection(&mut s, &[], a, a) {
        ConnStep::Closed => {},
        other => panic!("unexpected {:?}", other),
    }
    assert!(s.peers.is_empty());
}

#[test]
fn handshake_exchange_records_joining_peer() {
    let mut acceptor = node_with_peers(vec![]);
    let mut joiner = ServerWrapper::new(Ip::V4(127, 0, 0, 1), 3005).inner;
    let conn_at_acceptor = sock(1, 51000);
    let conn_at_joiner = sock(1, 3001);
    let greeting = acceptor.handshake();
    let answer = match handle_connection(&mut joiner, &greeting, conn_at_joiner, conn_at_joiner) {
        ConnStep::Handled(r) => r.reply.unwrap(),
        other => panic!("unexpected {:?}", other),
    };
    match handle_connection(&mut acceptor, &answer, conn_at_acceptor, conn_at_acceptor) {
        ConnStep::Handled(r) => assert!(r.reply.is_none()),
        other => panic!("unexpected {:?}", other),
    }
    assert_eq!(
        acceptor.peers,
        vec![Peer {
            stream_id: conn_at_acceptor,
            direction: PeerDirection::Inbound,
            address: Some(conn_at_acceptor.ip),
            port: 3005
        }]
    );
    assert!(joiner.peers.is_empty());
}
