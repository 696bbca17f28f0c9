# bitfab

A peer-to-peer compute node. The library (`src/`) holds what a node
decides, verified with Verus; the program (`app/`) holds the sockets,
tasks, timers and the HTTP server that carry those decisions out.

- `message`: gossip messages and their byte encoding; decoding an encoding
  gives the message back, and every decodable buffer is an encoding.
- `p2p_server`, `peer`: a node's address, port and peer list; the
  broadcast of new peers, the task dispatch, the handshake greeting.
- `p2p_routes`: the reaction of a node to each kind of gossip.
- `p2p_utils`: connecting to a peer, and one read from a connection.
- `router`, `http_routes`, `http_core`: route keys, the route table and the
  HTTP pages.
- `net`, `text`, `cli`: addresses, decimal text, the command line.
