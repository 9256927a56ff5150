# freecord

A peer-to-peer chat application. Its logic is a library verified with Verus;
the program around it (windows, files, sockets) is ordinary Rust.

- `src/` — the verified library:
  - `app` — the application's state across screens and its answer to each
    event, with the work it asks the program to do;
  - `channel` — the wire framing of messages (varint lengths, size limits);
  - `network` — the network task's state machine and the node handshake;
    `network::node` signed messages; `network::swarm` relay discovery and
    swarm events;
  - `identity` — key pairs, signatures, PEM encodings and peer ids;
  - `config`, `node` — the configuration and the table of known nodes;
  - `dashboard`, `buffer`, `screen`, `welcome`, `modal`, `window` — the state
    and decisions of the user interface;
  - `theme` — theme colours and their hexadecimal form;
  - `logger` — log levels, filters and the batching of log records.
- `tests/` — tests of the library.
- `app/` — the program: the iced user interface, the iroh and libp2p
  networking, and reading and writing files.
