# retro_arcade

The integer core of a small retro-arcade toolkit and of the games built on
it, written in Verus: every function in `src/` carries a contract that Verus
proves.

## Layout

- `src/input.rs` — logical keys and the input handler with edge detection
  (held / newly pressed / quit), modelled as sets of keys.
- `src/timing.rs` — the fixed-timestep clock in whole nanoseconds, with the
  laws of its accumulator.
- `src/sprite.rs` — string-art sprites turned into RGBA pixel buffers.
- `src/raster.rs` — the pixel rectangles behind outlines, thick lines, filled
  circles, scanlines and vignettes.
- `src/shadow.rs`, `src/neon.rs`, `src/mariolike.rs`, `src/micro.rs`,
  `src/cyber.rs`, `src/space.rs`, `src/dragon.rs` — each game's level data,
  map parsing and rules (screens, story typewriters, health, scoring, waves,
  timers) as state machines whose every step is stated exactly.
- `app/` — the SDL2 shell around the library: window, canvas, textures,
  events, colors and the floating-point parts of the clock.
- `tests/` — tests on concrete values.

## What is not here

The games' floating-point parts -- player and enemy movement, physics and
collision tests, aiming, camera, particles and screen shake -- their drawing,
their randomness and their main loops are not in the library, nor in `app/`.
Where a rule of the library depends on such a test (whether the player
touches a pickup, whether an enemy is in range), the caller passes its
outcome in as a `bool`.

