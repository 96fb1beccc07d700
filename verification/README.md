# dora-cat

A dataflow runtime whose graph, routing and shutdown logic are verified
with Verus.

- `src/graph.rs` — node identifiers, ports, node descriptors, connections,
  the builder that refuses duplicate nodes and dangling connections, lookups
  on a built graph, its free-category vertices and edges, and the
  descriptions used to trace paths.
- `src/dispatcher.rs` — the routing table built by `wire`, delivery of output
  to the connected input ports, and the coordinator that decides which nodes
  to stop as their producers finish.
- `src/service.rs` — the runtime's answer to each node request.
- `src/event.rs`, `src/error.rs` — events, the request/response protocol,
  the error type and its messages.
- `src/channel.rs` — the standard library's channels: which channel each
  end belongs to, and a receipt for every send.
- `src/text.rs` — decimal formatting of numbers.
- `app/` — the parts that do I/O: the RPC wire types, the node handle, the
  RPC server, the coordinator loop and `execute_local`, and the comp-cat-rs
  `Graph`/`GraphMorphism` implementations with `trace_path`.
