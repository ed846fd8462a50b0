# vintage

The logic of a small blockchain node, verified with Verus: message and frame
codecs, transaction pools, peer management, request and vote bookkeeping,
message routing, block synchronisation, block events and the records that
the meta-data store keeps.

## Layout

- `src/` is the verified library. Each public function states in `ensures`
  what it returns or changes; the laws that relate several functions are
  public proof functions whose names begin with `law_`.
- `app/` is the node around the library: sockets, channels, the redb and
  SQLite stores, the HTTP service and the overlord consensus engine. Its
  loops perform the I/O and hand the outcomes to the library, whose step
  functions (`dispatch_incoming`, `route_outgoing`, `after_sync_round`,
  `HashListReply`, `meta_sync_step`, the `PeerManager` methods) decide what
  comes next.
- `tests/` runs the library on concrete values.

## Outside code

The library calls `sha2` (SHA-256), `bincode` (the wire form of acts and
booleans), `uuid` (random act ids) and `csv` (the CSV exports of the
meta-data store) through trusted wrappers whose contracts state what those
crates do. `app/` also uses `rlp`, which the
node's crates do not name: the overlord version in use derives no serde
traits on its consensus messages, so `app/` writes each one in overlord's
own RLP encoding on the wire.

## What the node does not do

- SQL migrations are never written to the meta-data store: a wasm
  transaction carries a protocol name, a wasm hash and a block interval,
  and no SQL text, so there is nothing to record. The table and its CSV
  export exist and stay empty.
- There is no separate transaction service: acts go into the pools through
  the blockchain service, and the pool logic stands in `src/tx/`.
