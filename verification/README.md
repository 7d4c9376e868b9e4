# servicelib

A library for stream-processing services. A service is a graph of typed streams and
operators; messages enter it through sources and leave it through sinks.

- `src/` is the library. It holds every decision of a service: how operators are wired
  and what they emit, how the requests of each transport are opened, driven and closed,
  and which configurations are accepted. All of it is verified with Verus; the contracts
  stand with the functions, and what holds across functions stands beside them as proof
  functions named `law_...`.
  - `runtime/`: streams, the graph, configuration, errors, the actions and metrics of
    requests, pending requests.
  - `operators/`: map, filter, split, join and the other operators.
  - `datasink/`, `datasource/`: gRPC, HTTP, Kafka, local and cron endpoints.
- `app/` drives the library: it performs the I/O that the library asks for, in the order
  in which it asks, and reports back what came of it.
- `tests/` runs the library on concrete values.

## How a request runs

A request is a state machine. `step` takes an event (a handler returned, a response came,
the context was cancelled) and hands back the next state with a list of actions. A driver
performs the actions in their order and reports the next event. Two drivers that report
the same events see the same actions, so what a request does is a matter of the library
alone.

## What is trusted

Calls into other crates stand behind small functions marked
`#[verifier::external_body]`. The comment above each says what is believed of the call.
