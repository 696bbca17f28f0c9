//! A peer-to-peer compute node: the wire format of its gossip, the state
//! of its peer list, how it reacts to each message, and its HTTP routes.

pub mod cli;
pub mod http_core;
pub mod http_routes;
pub mod message;
pub mod net;
pub mod p2p_routes;
pub mod p2p_server;
pub mod p2p_utils;
pub mod peer;
pub mod router;
pub mod text;
