# memcrs

A memcached compatible key-value server speaking the memcached binary
protocol. The library in `src/` is verified with Verus; `app/` holds the
server program around it (command line, sockets, threads, clock).

## Layout of the library

- `protocol::binary` — the wire format: request decoding (an incremental
  decoder that keeps a parsed header while a body is still arriving),
  response encoding, and the plan for skipping oversized bodies.
  `protocol::binary::laws` states what holds of every decode.
- `protocol::binary_codec` — decoder and encoder in one value.
- `memory_store` — the two store engines (a DashMap map and a bounded Moka
  cache), their shared clock and version counter, and `store_spec`, the
  mathematical model of every store command. `memory_store::laws` states
  what the commands promise together (a read gives back a write, versions
  guard concurrent writers, counters are decimal text, ...).
- `memcache` — `MemcStore`, the memcache commands over either engine, the
  builder that picks the engine, and the command line value parsers.
- `memcache_server` — `BinaryHandler`, which answers a decoded request from
  the store; `memcache_server::laws` states that every answer matches its
  request and is framed as the protocol asks.
- `cache` — records, their meta data, errors and eviction policies.
- `mock` — handlers, clocks and random data for tests and load tests.

Every store command is specified against `StoreView` (contents, clock, next
version, engine, room). A Moka store may drop records on its own once it is
full; its commands answer exactly as the model says, and leave a store that
holds exactly what the model holds as long as it has room (its capacity
less what it counts against it), and a subset of it otherwise.
