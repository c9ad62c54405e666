# revycraft

The decisions of a voxel game server, verified with Verus: its RakNet transport, the binary
messages it exchanges with plugins, its world and inventory rules, and the handover of a running
game to a new process.

The library does no I/O, reads no clock and starts no task. Packets, instants and outcomes come in
as plain values; what is to be sent or carried out goes back as plain values. Floating-point
coordinates pass through as their bits.

## Layout

- `src/raknet/`: wire format, 24-bit sequence arithmetic, budgets, the state of one peer, the peer
  actor, the router, checkpoints. Files that end in `_laws` state what holds across calls.
- `src/codec/`: a grammar of values and formats with one proof that reading undoes writing, and
  the messages described in it. `src/protocol_codec/` holds the compact form of the protocol
  messages.
- `src/plugin/`: tags, kinds and versions of the plugin interface.
- `src/model/`: items, blocks, chunks, inventories, events, views.
- `src/game/`: clicks, window synchronisation, players, blocks, poses, login.
- `src/transfer/`: revisions, commits and deltas, the handover of a whole game and the checks that
  an incoming one must pass.
- `src/ordered.rs`, `src/lists.rs`, `src/bytes.rs`, `src/text.rs`, `src/numbers.rs`: maps kept as
  sorted entries, lists, byte orders, numbers as text.
- `app/`: sockets, tasks, clocks, floating point, serialisation through outside crates, and the
  tables that cross the C boundary.
- `tests/`: the library from outside.

Every function of `src/` is verified. One item is trusted: the wrapper around
`String::from_utf8` in `src/codec/binary.rs`. The rules of a game come from an implementation of
`ContentBehavior`, whose contract each implementation has to keep.
