# a2a_rust

An implementation of the A2A (Agent-to-Agent) protocol whose logic is
verified with Verus.

- `src/` is the verified library: the protocol types and their JSON model,
  event queues with taps and the queue manager, task stores and the task
  manager, the JSON-RPC envelope, the client factory's transport choice, the
  HTTP transports' requests and replies, server-sent event framing, the
  JSON-RPC and REST front ends, the server's routes and request checks, the
  gRPC request builders, and the push notification store's sealing and SQL.
  Each public function states its result in `ensures`; the laws that relate
  several functions are public proof functions named `law_*`.
- `app/` is the runtime around it: `serde` forms of the types, the
  asynchronous handler and client interfaces, the axum server, the reqwest
  and tonic transports, and the sqlx store.
- `tests/` exercises the library through its public interface.
