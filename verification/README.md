# loom server

The control plane of loom, as a verified Verus library and a program around it.

The library decides; the program carries out. Every decision is a function from plain values to
plain values with a contract that Verus checks: what a run's next event is, where a turn runs, what
a queued message waits for, which public messages an event becomes, what each route answers.

## Layout

- `src/` is the library.
  - `text`, `json`, `strmap`: texts, JSON values and maps by name, which everything else is stated over.
  - `domain`: threads, hosts, environments, projects, messages and events.
  - `runs`, `dispatch`, `lifecycle`, `reports`, `sweep`: runs in flight, where they start, how they
    end, what hosts report of them, and what is swept up where nobody reports.
  - `queue`, `turns`, `interactions`: prompts that wait, turns that start, and questions of agents.
  - `events`, `protocol`, `wire`, `hub_actor`, `pump`: the events in the log, the public messages,
    the frames and their delivery.
  - `timeline`, `thread_timeline`, `turn_details`, `reasoning_timeline`, `overview`, `search`,
    `projections`, `providers`, `resources`, `reply`: what the routes answer.
  - `settings`, `join_codes`, `persistence`, `local_worker`, `startup`: the rest of a server's life.
- `app/` is the program: configuration, HTTP and WebSocket endpoints, the worker's supervisor, the
  readers of the log, and an in-process registry and log.
- `tests/` runs the library.

## Reading the contracts

A JSON value is stated as a `Tree`; `object().field(..)` is the object with those members. A reply
is stated as a `ReplyView`. Public proof functions are the laws: what holds of several functions
together, such as that a settled run left one start and one terminal event in the log.

What the library takes on trust is what it calls in `serde`, `serde_json` and `std`; each such call stands
behind a function whose comment says what is claimed of it.
