# zode

The endpoint of a durable agent system: it keeps sessions, runs their tools and asks their models.

- `src/` is the verified library. It decides; it does no input or output.
  - `domain/` holds the facts of a session, its events, and the reducer that leads from state to
    state. `domain/reducer/laws.rs`, `count.rs` and `batch.rs` state what every event and every
    batch of events keeps.
  - `replicas.rs` decides on credential replicas and `replica_flow.rs` on the order of their files;
    `replica_history.rs` states what holds over any number of requests. `control/` decides on the
    rotation of controller secrets, within the directory that was admitted at the start, and on the
    identity of the endpoint.
  - `config.rs`, `cli.rs`, `paths.rs` and `wiring.rs` read and check the configuration.
  - `provider.rs` checks what may be asked of a model and puts its answer together.
  - `http/` holds the rules of requests, what is told of sessions and events, how a command is
    carried out against the event store (`flow.rs`), whose sessions a request may see (`owner.rs`),
    and how events are streamed (`stream.rs`, `frames.rs`).
- `tests/` runs the library.
- `app/` is the program around it: files, locks, HTTP, and the calls of providers. It holds events
  in memory.

Every data type has a ghost twin whose name ends in `View`; contracts speak of those. A function
that checks something has a spec function whose name ends in `_fault`, which gives the first thing
that is wrong. A function that changes a session has one whose name ends in `_step`.

What the library takes from other crates stands behind small wrappers: JSON values and their
encoding (`json.rs`, `serde_json`), addresses (`web.rs`, `url`), digests (`digest.rs`, `sha2`,
`hmac`, `subtle`), identifiers (`control/mod.rs`, `ulid`) and JSON schemas (`config.rs`,
`jsonschema`).
