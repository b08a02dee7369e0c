# dtb_node

A node of a distributed directory in the style of the Arrow directory
protocol: every key names an object that lives on at most one peer at a time,
or is on its way from one peer to the next (`src/system.rs` proves this for
keys that are added once); every other peer that knows the key keeps a pointer
to the peer it last saw the object go to. A node that wants the object sends a request along the pointers;
requests that meet a node still waiting for the object queue behind it.

Layout:

- `src/` — the library, verified with Verus.
  - `db.rs`, `database_memory.rs`, `handler.rs`: the values a node keeps, the
    `Database` interface, the in-memory database and the actions that a
    database task performs.
  - `node.rs`: the protocol itself, as a state machine from a node's state and
    an event (an API call, a request from a peer, a gossip or Kademlia event) to
    the next state and the network work to do; `laws.rs`: what it keeps and
    promises across operations; `system.rs`: a network of nodes and the
    exclusive ownership of each object across it.
  - `jobs.rs`, `communication_types.rs`, `errors.rs`, `text.rs`: jobs, messages,
    errors and their texts.
  - `bootstrap.rs`: the routing-table entries for the nodes a node joins through.
  - `peers.rs`, `keys.rs`: what the node uses of libp2p's peer ids,
    multiaddresses and key pairs.
  - `cli.rs`, `key_tool.rs`, `storage.rs`: command lines and store interfaces.
- `tests/` — tests of the library.
- `app/` — the program: the libp2p swarm, the event loop that performs the
  network work the library decides on, the REST API, and the key tool (run as
  `keys ...`).
