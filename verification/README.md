# pimad_edge

Edge gateway of the PIMAD monitoring network. It sits between the hubs of
one or more sensor networks (local MQTT broker) and the central server,
decides which telemetry goes to the server and which is kept locally while
the server is unreachable,
runs the balance protocol that tells the hubs when to send what, watches the
server's heartbeat, keeps the network topology, and drives firmware updates.

## Layout

- `src/` — the verified library (Verus). Every decision of the gateway is a
  function here with a contract:
  - `fsm`, `heartbeat` — the operating-mode machine and the server-heartbeat
    monitor, with their laws (well-formedness, phase order, safe-mode
    recovery, two timeouts before the server is declared dead, ...).
  - `first_layer::mqtt` — the subscription table of the MQTT client and the
    client's connection state machine.
  - `second_layer::message` — classification and routing of hub and server
    messages (store and forward, inactive networks, protocol messages).
  - `third_layer` — the network topology (`NetworkManager`), the balance
    session and its runtime decisions, hub firmware sessions, metrics
    parsing, protocol settings.
  - `system` — the gateway's identity and addresses, timer decisions, text and record helpers, and
    the two trusted calls (the system clock through std, the random jitter through `fastrand`).
- `tests/` — tests of the library.
- `app/` — the program around it: tokio tasks, the MQTT client, SQLite,
  system metrics, the self-update, MessagePack encoding and configuration
  files. It performs the effects the library decides on.

## Notes

- The link to the central server speaks gRPC with types generated from a
  `.proto` file that is not part of this repository. `app/server.rs` has no
  transport: uploads are decided, encoded and handed to the server link,
  which only traces them. Nothing reaches a server until a transport is
  attached there.
- The library keeps its collections (the networks and hub groups of
  `NetworkManager`, the subscription table, the balance session's reports)
  in vectors with a uniqueness invariant instead of hash maps and sets keyed
  by strings. With `String` keys Verus specifies too little of `HashMap` and
  `HashSet` to prove what these functions promise (that a repeated report
  counts once, that a hub identifier appears once per network, what the
  table holds after an update), so the vectors carry those invariants and
  the contracts speak of their abstract views (maps and sets).
- Telemetry is buffered by kind (`TableDataVector`), written to SQLite when a
  vector is full or on a timer, and uploaded in batches per kind; stored rows
  are deleted only after their batch was handed to the server link.
