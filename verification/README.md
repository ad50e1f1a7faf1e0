# hatchet-sdk

A client library for [Hatchet](https://hatchet.run), a distributed, fault-tolerant task queue,
with a core that is verified with Verus.

- `src/` is the core. It decides: which events become log lines and what they say, which task an
  assigned action starts, how a run is led to its end, when the action stream is reopened and
  when the worker gives up, and how requests to the engine are made out. Every function has a
  contract; the proof functions whose names begin with `law_` state what holds of several
  functions together.
- `app/` carries out: it opens connections, reads the clock, runs the tasks on Tokio, and plugs
  the core into `tracing`.
- `tests/` runs the core on concrete values.

## Modules of the core

| Module | What it holds |
| :--- | :--- |
| `worker::task_dispatcher` | assigned actions, the record of runs under way, the course of a run |
| `worker::worker` | what a worker can run, how it makes itself known, when it stops |
| `worker::action_listener` | reopening the action stream, and the waits in between |
| `tracing` | which events are forwarded, their fields, and the queue of log lines |
| `context` | what a task handler can ask of the engine |
| `clients` | the connection, the client, and the requests of the event service |
| `runnables` | workflows and tasks as they are defined |
| `utils` | time stamps, durations as text, the authorization header, the empty model |
| `json` | JSON values, as `serde_json` holds them |
| `config`, `error`, `duration`, `name_map`, `text` | settings, errors, and the basic types |

What the core has from `serde_json` and `tonic` it calls through small functions whose contracts
say what those crates do; they stand in `json`, `clients::grpc::metadata` and `clients::hatchet`.
