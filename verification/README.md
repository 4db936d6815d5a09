# afterburner

The command-line tools of the afterburner model-serving workflow: drift
receipts and baselines, deployment verification receipts, scheduler
heartbeats and leases, shard lineage, profiling provenance, uploads and
rollout checks.

- `src/` is the library, verified with Verus. Each `cmd_*` module parses
  its command's arguments and builds the records the command writes, from
  the JSON documents it reads; `json`, `json_text` (JSON text, read through
  serde_json), `text`, `float_text`, `cli`, `fields`, `paths` and the
  `command_*` modules hold what the commands share. The contracts
  state each result over spec functions; the `law_*` proof functions state
  what holds across calls (flag spellings, round trips, reconciliation and
  history rules, supersession, load planning).
- `app/` is the program around it: it reads files, runs processes, opens
  connections, does the floating-point statistics and writes the records
  and events.
- `tests/` runs the library on concrete inputs.
