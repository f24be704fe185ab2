# certstream_server

The core of a server that streams Certificate Transparency updates to WebSocket and
server-sent-event clients, verified with Verus.

- `src/websocket/`: one connection as a state machine (`session`), the counts of all
  connections (`server`), and what holds over a connection's life (`laws`).
- `src/sse.rs`: letting requests in, turning broadcasts into events, counting bytes.
- `src/admission.rs`, `src/telemetry.rs`: answers to requests and changes to metrics, as values.
- `src/memstats.rs`: heap figures of the allocator.
- `src/cli.rs`, `src/ct/`, `src/config.rs`, `src/models.rs`: the command line, log catalogs,
  configuration and messages.
- `src/payload.rs`: the text, byte and event types of `axum` and `bytes`, and what is taken for
  granted of them.
- `app/`: the process around the core: HTTP, sockets, timers and the metrics recorder.
