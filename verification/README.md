# evo-king

The orchestrator of a system of agents: it keeps their tasks, memories, traces and
configuration in a database, runs the evolution pipeline, starts agents and watches
over them, and serves a dashboard over HTTP and Socket.IO.

The library under `src/` is written in Verus. It decides and computes; it does no
input or output. What is to be done is returned as plain values: SQL statements with
their parameters, events with their rooms, JSON values, and lists of steps. Each
function states in its contract what it returns, and Verus proves it. Where the clock
or chance has a part in a result, the contract states what holds whatever came of it,
and where a rule depends on the time, a function that takes the time states exactly
what follows. Proof functions whose names begin with `law_` state what holds across
functions.

The program under `app/` does the input and output: it runs statements against
libSQL, sends events, serves HTTP, starts processes and reads files, and hands what
came back to the library.

## Modules

- `text`, `json`, `stamp`, `paths`, `keyed`: texts, JSON values, identifiers and
  times, paths, and values under text keys.
- `sql`, `task_db`, `memory_db`, `trace_db`: statements, and the records that rows
  hold.
- `history`: the changes of the status of agents and the events on the sockets, and
  how long they are kept.
- `events`, `records`, `steps`: events with their rooms, records as JSON, and the
  steps of a plan.
- `pipeline_coordinator`: the five stages of a run, recovery and decomposition.
- `socket_server`, `api`, `debug`, `trace_api`, `trace_receiver`: what follows on
  events and requests.
- `agent_manager`, `cron_manager`, `config_watcher`, `gateway_manager`: agents,
  recurring jobs and the configuration of the gateway.
- `doctor`, `system_discovery`: the state of an installation and of the machine.

## What is trusted

Calls into `serde_json`, `chrono`, `uuid`, `hex`, `prost`, `opentelemetry-proto` and
`evo-common` stand behind small functions marked `external_body`, and so does std's
`Hash::hash` on a text. Of std's `String::push` a specification is assumed. The
comment above each says what is believed of the call.
