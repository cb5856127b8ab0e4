# sbrx

The game rules of sbrx, a top-down arena game, as a verified library, with the
game's I/O, drawing, audio, randomness and frame-time arithmetic around it.

- `src/` — the library, verified with Verus:
  - `mechanics/lvl_up.rs`: climbing levels by spending kill score;
  - `mechanics/wave.rs`: bunker wave encounters, spawn tables and weighted picks;
  - `task.rs`: the task log, task goals and the tasks they unlock;
  - `map_system.rs`: the current field, its label and its stored colors;
  - `game.rs`: kill score, the encounter warning, the playlist, texture sets,
    combo-finisher effects;
  - `entities.rs`, `numfmt.rs`, `rng.rs`: shared kinds, decimal text, draws.
- `tests/` — tests of the library.
- `app/` — the program: asset and texture loading, audio, drawing, particles,
  countdowns in seconds and the floating-point combat arithmetic.
