# apollo_core

Integer bookkeeping of an Apollo 11 lunar module plant, verified with Verus: simulation
timing, the RCS gate-time and minimum-pulse rules, the valve schedule of each physics
substep, versioned JSONL telemetry, the propulsion demo's key handling and the model
viewer's screenshot plan. Every function in `src/` states its behaviour in `requires` /
`ensures` and is proved; the laws that relate several functions are public proof functions
named `lemma_*`.

Layout:

- `src/timing.rs` — fixed physics step and substeps per control step; tick-to-time conversion.
- `src/plant.rs` — the tick clock of a synchronous plant (physics tick = control tick x substeps).
- `src/propulsion.rs` — RCS layout of Apollo 11, specification checks and their messages,
  minimum-pulse gate times.
- `src/actuator.rs` — valve schedule of each substep and the breakpoints of thrust integration.
- `src/trajectory.rs`, `src/jsonl.rs` — header and frame checks, the writer's tick order, the
  reader's sequence check, and the line framing of JSONL files.
- `src/demo_controls.rs`, `src/demo_session.rs`, `src/run_control.rs`, `src/combinations.rs` —
  propulsion demo controls, per-frame key handling and per-tick decisions of the demo and the
  live example, jet combinations and their tie-break for torque couples.
- `src/capture.rs`, `src/cli.rs`, `src/model.rs`, `src/text.rs` — screenshot plan, command
  lines, model-name and model-spec checks, decimal text.
- `app/` — real-valued state, forces, thrust transients, descent engine geometry, model
  geometry and its MuJoCo text, the MuJoCo plants, the demo and live-example workers, JSON
  (de)serialisation and the replay program. It hands the library the outcome of each real-valued check.
- `tests/` — executable tests of the library.
