# grok_harness

A harness that drives the Grok Build agent over JSON-RPC. `src/` is the verified
library: every rule of a run is a function with a contract, proved by Verus. `app/`
is the ordinary Rust around it: the process, the connection, the clock and the
environment.

- `json`, `text`, `proto`: values, strings, and the vocabulary shared with the host.
- `normalize`: session updates and prompt results to agent events.
- `catalog`, `discovery`: the model catalog and its live discovery.
- `requests`, `action`: what goes to the agent, and what the host is asked to do.
- `handshake`, `session`: the two state machines of a run.
- `session_laws`, `turn_laws`: what holds of every session, whatever happens to it.
- `executable`, `child`, `harness`: the search for the CLI, its process, the settings.
- `message_id`: ids of assistant messages.
