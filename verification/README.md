# apcore-mcp-server

The server side of the Model Context Protocol for [apcore](https://crates.io/crates/apcore) modules:
modules of a registry are offered as tools, and tool calls are carried out by an executor.

`src/` is the library. It decides what the server does, and every decision has a contract that Verus
proves:

- `json`, `value`, `text`, `table`, `ids`: documents, their passage to and from `serde_json`, text,
  tables keyed by text, fresh ids
- `types`, `modules`: what the protocol and the registry speak of
- `factory`, `listener`: from modules to tools, once and while modules come and go
- `server`: configuration, life cycle, and the answer to each message of a client
- `router`, `cancel`, `merge`, `output`: tool calls, step by step, from their metadata to their text
- `async_task_bridge`, `task_manager`, `approval_bridge`: the meta-tools for background tasks and approvals
- `session`, `elicit_registry`: asking the client
- `transport`: lines, HTTP answers, and sessions over server-sent events

What has to be awaited is no part of the library. Where a decision depends on it, the library says
what to do next (`CallStep`, `TaskAction`, `ApprovalAction`, `StartPlan`), and is told what came of it
(`CallEvent`, `StreamEvent`, `Waited`).

`app/` does the awaiting: executors, tasks, sessions, sockets.

What the library takes from other crates without proof stands in functions marked `external_body`
and in `assume_specification` items, each with a comment that says what is taken.
