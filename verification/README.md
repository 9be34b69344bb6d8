# dopedb

The rules of a local database gateway for people and AI agents, as a verified library. SQL is
classified before it may touch a target. Reads run in read-only sessions, by default without
asking; writes are off by default, and where they are on they need a role that may write and an
approval, and an attempt row in the audit chain comes first. An agent's read is planned, and a
plan is good for one run. What is shared with a workspace holds no credential. These rules are
written in Verus and proved against their contracts.

## Layout

- `src/` is the library.
  - `text`, `ids`, `error`, `model`, `operations`, `state`: the values that everything else
    speaks of. Messages are `Text`s, which contracts can compare.
  - `sql_script`, `sql_script_laws`: splitting a script into statements, per SQL dialect, and
    what holds between a script and its parts.
  - `workspace`: who may do what with a resource.
  - `workspace_auth/`: talking to the control plane: where it is, signing in and out, and what
    is shared with it.
  - `store/`: the tables of the application, what each request does to them, and the laws that
    hold between requests.
  - `services/`: the application services. Each is a machine that says what to ask of the
    outside world, takes the answer, and says what follows, including the audit and history
    rows to write.
- `tests/` runs the library on concrete values.
- `app/` is a small shell around it. It keeps the tables in SQLite, speaks HTTP, and drives the
  store, workspace, connection and safety services. It keeps secrets in memory only, and opens
  no target database, so the services that run SQL, scripts, dashboards, documents and monitoring
  have no driver there.

## Reading a service

A service has a state, a request, a reply and an end. `start` begins it; `advance` takes the
reply to the last request and returns a step: the effects to carry out, and either a further
request or the end. The contract of `advance` is an equation with a spec function (`after`), or a
relation (`follows`) where a step hands out a new list, so that proofs about whole runs can follow
the states one by one; the `explained` predicates and
`every_state_is_explained` do that for the longer ones.

## What is trusted

Calls into `uuid`, `url` (through `reqwest`), `serde_json` and a few functions of the standard
library stand behind small wrappers, each with a doc comment that says what is taken on trust.
Everything else in `src/` is proved.
