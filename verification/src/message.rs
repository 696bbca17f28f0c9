//! Gossip messages exchanged between peers and their wire format.
//!
//! A message travels as one byte string:
//! a type tag (one byte), the sender's address (a tag byte `0` for none,
//! `4` followed by four octets, or `6` followed by eight big-endian 16-bit
//! groups), the sender's port (two bytes, big-endian), then the body text
//! in UTF-8 up to the end of the buffer.
use vstd::prelude::*;
use vstd::utf8::*;
use crate::net::Ip;

verus! {

broadcast use {encode_utf8_valid_utf8, encode_utf8_decode_utf8};

/// The kinds of gossip that peers exchange.
#[derive(Debug, Clone, Copy, PartialEq, Eq, Structural)]
pub enum GossipTypes {
    Ping,
    Pong,
    RequestServerInfo,
    ProcessServerInfo,
    ProcessNewPeer,
    HandleTask,
}

/// Where a message says its sender listens.
#[derive(Debug, Clone, Copy, PartialEq, Eq, Structural)]
pub struct PeerInfo {
    pub address: Option<Ip>,
    pub port: u16,
}

/// The payload of a message: sender information and free text.
#[derive(Debug)]
pub struct MessageBody {
    pub peer_info: PeerInfo,
    pub body: String,
}

/// A gossip message.
#[derive(Debug)]
pub struct Message {
    pub gossip_type: GossipTypes,
    pub body: MessageBody,
}

/// The mathematical content of a message.
pub struct MessageView {
    pub gossip_type: GossipTypes,
    pub address: Option<Ip>,
    pub port: u16,
    pub body: Seq<char>,
}

impl View for Message {
    type V = MessageView;

    open spec fn view(&self) -> MessageView {
        MessageView {
            gossip_type: self.gossip_type,
            address: self.body.peer_info.address,
            port: self.body.peer_info.port,
            body: self.body.body@,
        }
    }
}

/// The message with the given parts.
pub open spec fn message_view(
    gossip_type: GossipTypes,
    body: Seq<char>,
    address: Option<Ip>,
    port: u16,
) -> MessageView {
    MessageView { gossip_type, address, port, body }
}

// ---------------------------------------------------------------------------
// Wire format
// ---------------------------------------------------------------------------

/// The byte that stands for a gossip type.
pub open spec fn type_tag(t: GossipTypes) -> u8 {
    match t {
        GossipTypes::Ping => 0,
        GossipTypes::Pong => 1,
        GossipTypes::RequestServerInfo => 2,
        GossipTypes::ProcessServerInfo => 3,
        GossipTypes::ProcessNewPeer => 4,
        GossipTypes::HandleTask => 5,
    }
}

/// The gossip type that a byte stands for, if any.
pub open spec fn tag_type(b: u8) -> Option<GossipTypes> {
    if b == 0 {
        Some(GossipTypes::Ping)
    } else if b == 1 {
        Some(GossipTypes::Pong)
    } else if b == 2 {
        Some(GossipTypes::RequestServerInfo)
    } else if b == 3 {
        Some(GossipTypes::ProcessServerInfo)
    } else if b == 4 {
        Some(GossipTypes::ProcessNewPeer)
    } else if b == 5 {
        Some(GossipTypes::HandleTask)
    } else {
        None
    }
}

/// A 16-bit value as two bytes, most significant first.
pub open spec fn u16_bytes(v: u16) -> Seq<u8> {
    seq![(v / 256) as u8, (v % 256) as u8]
}

/// The 16-bit value of two bytes, most significant first.
pub open spec fn be_u16(hi: u8, lo: u8) -> u16 {
    (hi * 256 + lo) as u16
}

/// The encoding of an optional address.
pub open spec fn address_bytes(a: Option<Ip>) -> Seq<u8> {
    match a {
        None => seq![0u8],
        Some(Ip::V4(a, b, c, d)) => seq![4u8, a, b, c, d],
        Some(Ip::V6(a, b, c, d, e, f, g, h)) => seq![6u8] + u16_bytes(a) + u16_bytes(b) + u16_bytes(
            c,
        ) + u16_bytes(d) + u16_bytes(e) + u16_bytes(f) + u16_bytes(g) + u16_bytes(h),
    }
}

/// The bytes that stand for a message.
pub open spec fn spec_marshall(m: MessageView) -> Seq<u8> {
    seq![type_tag(m.gossip_type)] + address_bytes(m.address) + u16_bytes(m.port) + encode_utf8(
        m.body,
    )
}

/// Reads an optional address at the start of `s`: the address and the number
/// of bytes it takes, if `s` starts with one.
pub open spec fn parse_address(s: Seq<u8>) -> Option<(Option<Ip>, int)> {
    if s.len() == 0 {
        None
    } else if s[0] == 0 {
        Some((None, 1))
    } else if s[0] == 4 && s.len() >= 5 {
        Some((Some(Ip::V4(s[1], s[2], s[3], s[4])), 5))
    } else if s[0] == 6 && s.len() >= 17 {
        Some(
            (
                Some(
                    Ip::V6(
                        be_u16(s[1], s[2]),
                        be_u16(s[3], s[4]),
                        be_u16(s[5], s[6]),
                        be_u16(s[7], s[8]),
                        be_u16(s[9], s[10]),
                        be_u16(s[11], s[12]),
                        be_u16(s[13], s[14]),
                        be_u16(s[15], s[16]),
                    ),
                ),
                17,
            ),
        )
    } else {
        None
    }
}

/// Why a byte string does not stand for a message.
#[derive(Debug, Clone, Copy, PartialEq, Eq, Structural)]
pub enum DecodeError {
    /// The buffer is empty.
    Empty,
    /// The first byte is no gossip type.
    UnknownType,
    /// The address is missing, has an unknown tag or is cut short.
    BadAddress,
    /// Fewer than two bytes are left for the port.
    MissingPort,
    /// The body is not UTF-8.
    InvalidUtf8,
}

/// The message that a byte string stands for, or why it stands for none.
pub open spec fn spec_unmarshall(b: Seq<u8>) -> Result<MessageView, DecodeError> {
    if b.len() == 0 {
        Err(DecodeError::Empty)
    } else {
        match tag_type(b[0]) {
            None => Err(DecodeError::UnknownType),
            Some(t) => match parse_address(b.subrange(1, b.len() as int)) {
                None => Err(DecodeError::BadAddress),
                Some((address, n)) => {
                    let rest = b.subrange(1 + n, b.len() as int);
                    if rest.len() < 2 {
                        Err(DecodeError::MissingPort)
                    } else {
                        let body = rest.subrange(2, rest.len() as int);
                        if valid_utf8(body) {
                            Ok(
                                MessageView {
                                    gossip_type: t,
                                    address,
                                    port: be_u16(rest[0], rest[1]),
                                    body: decode_utf8(body),
                                },
                            )
                        } else {
                            Err(DecodeError::InvalidUtf8)
                        }
                    }
                },
            },
        }
    }
}

proof fn lemma_u16_split(v: u16)
    ensures
        be_u16((v / 256) as u8, (v % 256) as u8) == v,
{
}

proof fn lemma_u16_join(hi: u8, lo: u8)
    ensures
        u16_bytes(be_u16(hi, lo)) == seq![hi, lo],
{
    let v = be_u16(hi, lo);
    assert(v == hi * 256 + lo);
    assert(v / 256 == hi) by (nonlinear_arith)
        requires
            v == hi * 256 + lo,
            0 <= lo < 256,
    ;
    assert(v % 256 == lo) by (nonlinear_arith)
        requires
            v == hi * 256 + lo,
            0 <= lo < 256,
    ;
    assert(u16_bytes(v) =~= seq![hi, lo]);
}

proof fn lemma_parse_address_bytes(a: Option<Ip>, rest: Seq<u8>)
    ensures
        parse_address(address_bytes(a) + rest) == Some((a, address_bytes(a).len() as int)),
{
    let s = address_bytes(a) + rest;
    match a {
        None => {},
        Some(Ip::V4(x0, x1, x2, x3)) => {},
        Some(Ip::V6(x0, x1, x2, x3, x4, x5, x6, x7)) => {
            lemma_u16_split(x0);
            lemma_u16_split(x1);
            lemma_u16_split(x2);
            lemma_u16_split(x3);
            lemma_u16_split(x4);
            lemma_u16_split(x5);
            lemma_u16_split(x6);
            lemma_u16_split(x7);
            assert(address_bytes(a).len() == 17);
            assert(s[1] == (x0 / 256) as u8 && s[2] == (x0 % 256) as u8);
            assert(s[3] == (x1 / 256) as u8 && s[4] == (x1 % 256) as u8);
            assert(s[5] == (x2 / 256) as u8 && s[6] == (x2 % 256) as u8);
            assert(s[7] == (x3 / 256) as u8 && s[8] == (x3 % 256) as u8);
            assert(s[9] == (x4 / 256) as u8 && s[10] == (x4 % 256) as u8);
            assert(s[11] == (x5 / 256) as u8 && s[12] == (x5 % 256) as u8);
            assert(s[13] == (x6 / 256) as u8 && s[14] == (x6 % 256) as u8);
            assert(s[15] == (x7 / 256) as u8 && s[16] == (x7 % 256) as u8);
        },
    }
}

/// Decoding what was encoded gives the message back: every message survives
/// the wire unchanged.
pub proof fn lemma_unmarshall_marshall(m: MessageView)
    ensures
        spec_unmarshall(spec_marshall(m)) == Ok::<MessageView, DecodeError>(m),
{
    let b = spec_marshall(m);
    let a = address_bytes(m.address);
    let tail = u16_bytes(m.port) + encode_utf8(m.body);
    assert(b =~= seq![type_tag(m.gossip_type)] + (a + tail));
    assert(b.subrange(1, b.len() as int) =~= a + tail);
    lemma_parse_address_bytes(m.address, tail);
    let n = a.len() as int;
    assert(b.subrange(1 + n, b.len() as int) =~= tail);
    assert(tail.subrange(2, tail.len() as int) =~= encode_utf8(m.body));
    lemma_u16_split(m.port);
}

/// A byte string that decodes to a message is exactly that message's
/// encoding: the wire format has one encoding per message.
pub proof fn lemma_marshall_unmarshall(b: Seq<u8>)
    ensures
        spec_unmarshall(b) matches Ok(m) ==> spec_marshall(m) == b,
{
    if let Ok(m) = spec_unmarshall(b) {
        let s = b.subrange(1, b.len() as int);
        let (address, n) = parse_address(s).unwrap();
        let rest = b.subrange(1 + n, b.len() as int);
        let body = rest.subrange(2, rest.len() as int);
        decode_utf8_encode_utf8(body);
        lemma_u16_join(rest[0], rest[1]);
        assert(u16_bytes(m.port) + encode_utf8(m.body) =~= rest);
        if s[0] == 0 {
            assert(address_bytes(address) =~= s.subrange(0, n));
        } else if s[0] == 4 {
            assert(address_bytes(address) =~= s.subrange(0, n));
        } else {
            lemma_u16_join(s[1], s[2]);
            lemma_u16_join(s[3], s[4]);
            lemma_u16_join(s[5], s[6]);
            lemma_u16_join(s[7], s[8]);
            lemma_u16_join(s[9], s[10]);
            lemma_u16_join(s[11], s[12]);
            lemma_u16_join(s[13], s[14]);
            lemma_u16_join(s[15], s[16]);
            assert(address_bytes(address) =~= s.subrange(0, n));
        }
        assert(spec_marshall(m) =~= b);
    }
}


// ---------------------------------------------------------------------------
// Executable codec
// ---------------------------------------------------------------------------

/// Turns bytes into a string when they are UTF-8.
///
/// Trusted: calls `String::from_utf8`, which std documents as failing exactly
/// when the bytes are not valid UTF-8, and otherwise giving the string whose
/// UTF-8 bytes they are.
#[verifier::external_body]
fn string_from_utf8(bytes: Vec<u8>) -> (r: Option<String>)
    ensures
        r is Some <==> valid_utf8(bytes@),
        r matches Some(s) ==> encode_utf8(s@) == bytes@,
{
    match String::from_utf8(bytes) {
        Ok(s) => Some(s),
        Err(_) => None,
    }
}

fn gossip_tag(t: GossipTypes) -> (b: u8)
    ensures
        b == type_tag(t),
{
    match t {
        GossipTypes::Ping => 0,
        GossipTypes::Pong => 1,
        GossipTypes::RequestServerInfo => 2,
        GossipTypes::ProcessServerInfo => 3,
        GossipTypes::ProcessNewPeer => 4,
        GossipTypes::HandleTask => 5,
    }
}

fn gossip_of_tag(b: u8) -> (t: Option<GossipTypes>)
    ensures
        t == tag_type(b),
{
    if b == 0 {
        Some(GossipTypes::Ping)
    } else if b == 1 {
        Some(GossipTypes::Pong)
    } else if b == 2 {
        Some(GossipTypes::RequestServerInfo)
    } else if b == 3 {
        Some(GossipTypes::ProcessServerInfo)
    } else if b == 4 {
        Some(GossipTypes::ProcessNewPeer)
    } else if b == 5 {
        Some(GossipTypes::HandleTask)
    } else {
        None
    }
}

fn push_u16(out: &mut Vec<u8>, v: u16)
    ensures
        final(out)@ == old(out)@ + u16_bytes(v),
{
    out.push((v / 256) as u8);
    out.push((v % 256) as u8);
    assert(final(out)@ =~= old(out)@ + u16_bytes(v));
}

fn read_u16(hi: u8, lo: u8) -> (v: u16)
    ensures
        v == be_u16(hi, lo),
{
    (hi as u16) * 256 + (lo as u16)
}

fn push_address(out: &mut Vec<u8>, a: Option<Ip>)
    ensures
        final(out)@ == old(out)@ + address_bytes(a),
{
    match a {
        None => {
            out.push(0);
            assert(final(out)@ =~= old(out)@ + address_bytes(a));
        },
        Some(Ip::V4(x0, x1, x2, x3)) => {
            out.push(4);
            out.push(x0);
            out.push(x1);
            out.push(x2);
            out.push(x3);
            assert(final(out)@ =~= old(out)@ + address_bytes(a));
        },
        Some(Ip::V6(x0, x1, x2, x3, x4, x5, x6, x7)) => {
            out.push(6);
            push_u16(out, x0);
            push_u16(out, x1);
            push_u16(out, x2);
            push_u16(out, x3);
            push_u16(out, x4);
            push_u16(out, x5);
            push_u16(out, x6);
            push_u16(out, x7);
            assert(final(out)@ =~= old(out)@ + address_bytes(a));
        },
    }
}

fn push_slice(out: &mut Vec<u8>, bytes: &[u8])
    ensures
        final(out)@ == old(out)@ + bytes@,
{
    let ghost start = out@;
    let mut i: usize = 0;
    while i < bytes.len()
        invariant
            i <= bytes.len(),
            out@ == start + bytes@.subrange(0, i as int),
        decreases bytes.len() - i,
    {
        out.push(bytes[i]);
        i = i + 1;
        assert(out@ =~= start + bytes@.subrange(0, i as int));
    }
    assert(bytes@.subrange(0, i as int) =~= bytes@);
}

fn copy_range(bytes: &[u8], from: usize) -> (v: Vec<u8>)
    requires
        from <= bytes.len(),
    ensures
        v@ == bytes@.subrange(from as int, bytes@.len() as int),
{
    let mut v: Vec<u8> = Vec::new();
    let mut i: usize = from;
    while i < bytes.len()
        invariant
            from <= i <= bytes.len(),
            v@ == bytes@.subrange(from as int, i as int),
        decreases bytes.len() - i,
    {
        v.push(bytes[i]);
        i = i + 1;
        assert(v@ =~= bytes@.subrange(from as int, i as int));
    }
    v
}

impl Message {
    /// A message of the given type, body text, sender address and port.
    pub fn new(gossip_type: GossipTypes, body: &str, address: Option<Ip>, port: u16) -> (m: Message)
        ensures
            m@ == message_view(gossip_type, body@, address, port),
    {
        Message {
            gossip_type,
            body: MessageBody { peer_info: PeerInfo { address, port }, body: body.to_owned() },
        }
    }

    /// The bytes that carry this message over the wire.
    pub fn marshall(&self) -> (b: Vec<u8>)
        ensures
            b@ == spec_marshall(self@),
    {
        let mut out: Vec<u8> = Vec::new();
        out.push(gossip_tag(self.gossip_type));
        push_address(&mut out, self.body.peer_info.address);
        push_u16(&mut out, self.body.peer_info.port);
        push_slice(&mut out, self.body.body.as_str().as_bytes());
        assert(out@ =~= spec_marshall(self@));
        out
    }

    /// The message that a received buffer holds, or why it holds none.
    pub fn unmarshall(buffer: &[u8]) -> (r: Result<Message, DecodeError>)
        ensures
            r matches Ok(m) ==> spec_unmarshall(buffer@) == Ok::<MessageView, DecodeError>(m@),
            r matches Err(e) ==> spec_unmarshall(buffer@) == Err::<MessageView, DecodeError>(e),
    {
        let n = buffer.len();
        if n == 0 {
            return Err(DecodeError::Empty);
        }
        let gossip_type = match gossip_of_tag(buffer[0]) {
            Some(t) => t,
            None => {
                return Err(DecodeError::UnknownType);
            },
        };
        let ghost s = buffer@.subrange(1, n as int);
        if n < 2 {
            return Err(DecodeError::BadAddress);
        }
        let tag = buffer[1];
        let address: Option<Ip>;
        let alen: usize;
        if tag == 0 {
            address = None;
            alen = 1;
        } else if tag == 4 && n >= 6 {
            address = Some(Ip::V4(buffer[2], buffer[3], buffer[4], buffer[5]));
            alen = 5;
        } else if tag == 6 && n >= 18 {
            address = Some(
                Ip::V6(
                    read_u16(buffer[2], buffer[3]),
                    read_u16(buffer[4], buffer[5]),
                    read_u16(buffer[6], buffer[7]),
                    read_u16(buffer[8], buffer[9]),
                    read_u16(buffer[10], buffer[11]),
                    read_u16(buffer[12], buffer[13]),
                    read_u16(buffer[14], buffer[15]),
                    read_u16(buffer[16], buffer[17]),
                ),
            );
            alen = 17;
        } else {
            return Err(DecodeError::BadAddress);
        }
        assert(parse_address(s) == Some((address, alen as int)));
        let pos = 1 + alen;
        if n - pos < 2 {
            return Err(DecodeError::MissingPort);
        }
        let ghost rest = buffer@.subrange(pos as int, n as int);
        let port = read_u16(buffer[pos], buffer[pos + 1]);
        let body_bytes = copy_range(buffer, pos + 2);
        assert(body_bytes@ =~= rest.subrange(2, rest.len() as int));
        match string_from_utf8(body_bytes) {
            Some(body) => {
                Ok(
                    Message {
                        gossip_type,
                        body: MessageBody { peer_info: PeerInfo { address, port }, body },
                    },
                )
            },
            None => Err(DecodeError::InvalidUtf8),
        }
    }
}

} // verus!
