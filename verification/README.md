# herdr core

The logic of herdr's client frame pacing and of its tab and agent-wait requests,
written in Verus and proved against its contracts.

- `src/pacer.rs`: the semantic frame pacer as a state machine over nanosecond
  instants; `src/pacer_laws.rs` proves what it promises across calls (coalescing,
  graphics kept in order, scope changes, epochs).
- `src/refresh.rs`: the refresh-rate setting and the effective presentation interval.
- `src/responses.rs`, `src/tabs.rs`: API responses as values and the tab requests;
  `src/tab_laws.rs` proves how lookups, listings and answers relate.
- `src/agents.rs`: agent status after reports and the poll decisions of `agent wait`.
- `app/`: environment, clock, JSON encoding and the polling loop, around the library.
