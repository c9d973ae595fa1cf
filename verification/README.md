# astra

Decision logic of the Astra agent, written in Rust and verified with Verus. The
functions in `src/` state in their contracts what they return or change, and the
contracts are proved.

| Module | What it decides |
| --- | --- |
| `model_wire`, `thinking`, `thinking_probe` | which fields a model request carries, how reasoning is switched, what a probe establishes and what is remembered of it |
| `protocol_history` | whether a conversation holds tool protocol state |
| `login`, `browser_code`, `device_login` | the requests, answers and secrets of the login flows |
| `turn_auth_retry` | when a failed turn is tried again with a fresh token |
| `tui_event`, `startup_query`, `startup_script` | terminal events, the start-up query, and a scripted terminal that exercises it |
| `measurement` | observing ingestion deliveries under one strict bound on reports |
| `workload`, `histogram`, `capacity`, `reconciliation` | an open-loop workload, its accounting, and what a store should hold afterwards |
| `json`, `text`, `web`, `codec`, `clock` | values shared by the modules above, and the boundary to outside crates |

Calls into outside crates stand behind small functions whose contracts are believed,
each marked `external_body` with a comment that says what is claimed of it. `app/`
holds what touches sockets, processes, clocks and locks; it performs what the library
decides. `tests/` runs the library on concrete values.
