# wq_server

An events queue server. Clients post events for a queue; each event gets an
id (given, read from a field of its body, or a new ULID), a trace id and a
timestamp; the batch goes to a job queue, and workers store each queue's
events as rows, one queue at a time.

- `src/` is the verified library (Verus): the JSON model, ingestion
  (`routes/events.rs`), the rows that store a batch (`app/queue.rs`), error
  answers (`utils/`), request routing (`server.rs`), the Swagger UI answers,
  per-tag locks, and the laws that hold across them (`laws.rs`). Calls into
  `ulid`, `chrono`, `uuid`, `pavex_matchit`, `dashmap`, `tokio` and
  `utoipa-swagger-ui` go through a few trusted wrappers whose contracts state
  what those crates guarantee.
- `app/` is the program around it: configuration, the HTTP server (axum),
  the job queue (apalis on PostgreSQL), the database (diesel), the event
  processors, the demo task loop, and the job board API (actix-web) that
  `--board` serves in place of the events server.
- `tests/` runs the library on concrete inputs.
