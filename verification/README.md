# athena_led

Verified core of the LED controller of the JDCloud AX6600 "Athena" router.

- `src/text.rs` — string helpers over the `Seq<char>` view: trimming,
  splitting at a character, suffix and membership tests, decimal parsing
  (`str::parse`) and case mapping (`to_lowercase` / `to_uppercase`).
- `src/control.rs` — the control port's line protocol (`ping`, `next`,
  `home`, `off`/`sleep`, `wake`, `toggle`, `light`, `show`, `pet`, `petb`,
  `petidle`, `showraw`): `handle_command` returns the reply and the value to
  send on the channel watch and writes the shared `ControlState`, which keeps
  its well-formedness invariant.
- `src/states.rs` — the state machine of `states.json`: rule probes, trigger
  logic, `HH:MM` time windows and the selection of the active state.
- `app/lib.rs` — what talks to the outside: the TCP server, reading
  `states.json` and `pet.json`, the local clock, live system readings, floating-point
  comparisons and scripts.
