# wavecord

A Lavalink v3/v4 client engine whose logic is verified with Verus.

- `src/` — the verified library: the JSON model of the wire format and its
  codecs for every message (`json`, `codec`, `model`), the v3 ops and the
  normalization of v3 messages and load results to the version-neutral model
  (`protocol`), percent-encoded REST paths and response reading (`rest`), the
  WebSocket handshake (`ws`), and a node's decisions: its commands
  (`node::commands`), its reconnect supervisor (`node::supervisor`) and its
  frame reader (`node::reader`). `model::laws` proves that every model read
  back from its JSON form is the model that was written.
- `tests/` — tests of the library on concrete values.
- `app/` — the I/O around the library: the HTTP client, the WebSocket tasks
  and the reconnect loop that run the library's decisions, and the Python
  bindings.
