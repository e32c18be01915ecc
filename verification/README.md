# zenith

The game logic of Zenith, a small arcade game, written in Verus and proved
against its contracts.

- `src/` is the verified library: the meta and room states and the states computed
  from them, the campaign order of encounters, drag input, the ship's stores of
  launches and fires, animation and texture managers with change tracking, frame
  stepping, trigger collision records, patrols, the suicido's decisions, camera
  following, render layers and wrap offsets. Positions, times and other
  floating-point values are handed in by the caller as type parameters or as the
  outcome of comparisons, so every decision is proved for all of them.
- `tests/` runs the library on concrete values.
- `app/` is the game around it: the engine, its states, systems and components,
  the clock, the mouse, and the floating-point movement and wrapping.
