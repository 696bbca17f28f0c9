use bitfab::message::{DecodeError, GossipTypes, Message};
use bitfab::net::Ip;

fn same(a: &Message, b: &Message) -> bool {
    a.gossip_type == b.gossip_type
        && a.body.peer_info == b.body.peer_info
        && a.body.body == b.body.body
}

#[test]
fn new_message_holds_its_parts() {
    let m = Message::new(GossipTypes::Pong, "Ponging", Some(Ip::V4(10, 0, 0, 7)), 3001);
    assert_eq!(m.gossip_type, GossipTypes::Pong);
    assert_eq!(m.body.body, "Ponging");
    assert_eq!(m.body.peer_info.address, Some(Ip::V4(10, 0, 0, 7)));
    assert_eq!(m.body.peer_info.port, 3001);
}

#[test]
fn marshall_exact_bytes_v4() {
    let m = Message::new(GossipTypes::Ping, "hi", Some(Ip::V4(127, 0, 0, 1)), 3001);
    assert_eq!(m.marshall(), vec![0, 4, 127, 0, 0, 1, 0x0b, 0xb9, b'h', b'i']);
}

#[test]
fn marshall_exact_bytes_no_address_empty_body() {
    let m = Message::new(GossipTypes::HandleTask, "", None, 258);
    assert_eq!(m.marshall(), vec![5, 0, 1, 2]);
}

#[test]
fn marshall_exact_bytes_v6() {
    let m = Message::new(
        GossipTypes::ProcessNewPeer,
        "",
        Some(Ip::V6(0x2001, 0x0db8, 0, 0, 0, 0, 0, 1)),
        80,
    );
    assert_eq!(
        m.marshall(),
        vec![4, 6, 0x20, 0x01, 0x0d, 0xb8, 0, 0, 0, 0, 0, 0, 0, 0, 0, 0, 0, 1, 0, 80]
    );
}

#[test]
fn round_trip_every_type_and_address() {
    let types = [
        GossipTypes::Ping,
        GossipTypes::Pong,
        GossipTypes::RequestServerInfo,
        GossipTypes::ProcessServerInfo,
        GossipTypes::ProcessNewPeer,
        GossipTypes::HandleTask,
    ];
    let addresses = [
        None,
        Some(Ip::V4(192, 168, 1, 255)),
        Some(Ip::V6(0xfe80, 1, 2, 3, 4, 5, 6, 0xffff)),
    ];
    for t in types {
        for a in addresses {
            for port in [0u16, 255, 256, 3002, u16::MAX] {
                let m = Message::new(t, "body | with ünïcödé ✓", a, port);
                let back = Message::unmarshall(&m.marshall()).unwrap();
                assert!(same(&m, &back));
            }
        }
    }
}

#[test]
fn unmarshall_empty_buffer() {
    assert_eq!(Message::unmarshall(&[]).unwrap_err(), DecodeError::Empty);
}

#[test]
fn unmarshall_unknown_type() {
    assert_eq!(Message::unmarshall(&[6, 0, 0, 1]).unwrap_err(), DecodeError::UnknownType);
}

#[test]
fn unmarshall_bad_address() {
    assert_eq!(Message::unmarshall(&[0]).unwrap_err(), DecodeError::BadAddress);
    assert_eq!(Message::unmarshall(&[0, 5, 0, 1]).unwrap_err(), DecodeError::BadAddress);
    assert_eq!(Message::unmarshall(&[0, 4, 127, 0, 0]).unwrap_err(), DecodeError::BadAddress);
    assert_eq!(Message::unmarshall(&[0, 6, 1, 2, 3]).unwrap_err(), DecodeError::BadAddress);
}

#[test]
fn unmarshall_missing_port() {
    assert_eq!(Message::unmarshall(&[0, 0, 1]).unwrap_err(), DecodeError::MissingPort);
    assert_eq!(Message::unmarshall(&[1, 4, 1, 2, 3, 4]).unwrap_err(), DecodeError::MissingPort);
}

#[test]
fn unmarshall_invalid_utf8() {
    assert_eq!(Message::unmarshall(&[0, 0, 0, 1, 0xff]).unwrap_err(), DecodeError::InvalidUtf8);
    assert_eq!(
        Message::unmarshall(&[0, 0, 0, 1, 0xed, 0xa0, 0x80]).unwrap_err(),
        DecodeError::InvalidUtf8
    );
}

#[test]
fn unmarshall_reads_fields() {
    let m = Message::unmarshall(&[3, 4, 10, 1, 2, 3, 0x0b, 0xba, b'o', b'k']).unwrap();
    assert_eq!(m.gossip_type, GossipTypes::ProcessServerInfo);
    assert_eq!(m.body.peer_info.address, Some(Ip::V4(10, 1, 2, 3)));
    assert_eq!(m.body.peer_info.port, 3002);
    assert_eq!(m.body.body, "ok");
}

#[test]
fn decoded_bytes_encode_back_to_themselves() {
    let buffers: Vec<Vec<u8>> = vec![
        vec![2, 0, 0, 0],
        vec![1, 6, 0, 1, 0, 2, 0, 3, 0, 4, 0, 5, 0, 6, 0, 7, 0, 8, 12, 34, b'x'],
        vec![4, 4, 1, 1, 1, 1, 255, 255, 0xc3, 0xa9],
    ];
    for b in buffers {
        let m = Message::unmarshall(&b).unwrap();
        assert_eq!(m.marshall(), b);
    }
}
