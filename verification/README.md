# hearth

The decision logic of the Hearth music service's scheduler and workers, verified
with Verus.

- `src/scheduler.rs`: the registry of workers, the round-robin hand-out of
  jobs, and what the scheduler does with a payload from the bus; `src/scheduler_laws.rs` proves that the registry stays valid, that the
  rotation is fair, and how registration and shutdown combine.
- `src/worker.rs`: how a worker reads payloads, takes jobs and routes direct
  messages to them;
  `src/worker_laws.rs` proves its laws.
- `src/track.rs`: the checks made before a track is paused, sought, looped.
- `src/metadata.rs`: the metadata reply and its write-once identifiers.
- `src/player.rs`: the headers and HTTP client of a direct stream.
- `app/`: NATS connections, the JSON of outgoing messages, tokio tasks and the
  voice driver, around the library.
