# simulateur

An agent that runs controlled attack simulations against a sandbox and checks
that the other security agents (Filtreur, Analyseur, Chiffreur, Auditeur,
Décideur) detect them.

The library under `src/` is verified with Verus:

- `control/constraints.rs` — the launch constraints C1–C15 (sandbox and
  production blocks, authorisation, scenario and duration limits, launch
  window, snapshot and rollback plan), with the laws that an accepted launch
  satisfies.
- `control/orchestrator.rs` — the pipeline of a run as a state machine: each
  `Pipeline::step` takes what the last action came to and returns the next
  action; laws state that every run ends, counts exactly one outcome, clears
  the simulation state, and never waits for an acknowledgement in a dry run.
- `control/state.rs`, `control/metrics.rs`, `control/fsm.rs` — the shared
  simulation state and the counters.
- `scenarios/` — the catalogue of 25 scenarios with its timeout policy, the
  knowledge base of 24 entries, and the command line of each scenario. Both
  are written out as verified constants; the crate ships no JSON copy of the
  catalogue and so has no loader or counter for such a file.
- `comms/` — the settings of the clients of the other agents and the reading
  of their answers; the encryption round trip with the Chiffreur as a small
  state machine; the body of the Décideur handshake; identifiers of requests
  and simulations.
- `api/` — token checks and the decisions of each HTTP route, including the
  stop order (its count and its journal event).
- `ip.rs`, `text.rs` — IP address and CIDR parsing, trimming and formatting.
- `clock.rs` — readings of the system clock through `chrono`.

`app/` holds the process around it: configuration loading, the axum server,
the reqwest clients, process spawning, and the loop that performs the
pipeline's actions.
