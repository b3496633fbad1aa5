# shooter

The rules of a vertical-scrolling shoot-'em-up, verified with Verus, and the Bevy game shell
that drives them.

- `src/` is the verified library: the weapon rack and the gunners that carry its weapon,
  sprite-sheet animation order, the player's volleys at each power level, burst-and-wait
  emitter cycles, how rate modifiers join, shot and burst limits, the wave
  order of a level, parts, upgrades and the upgrade menu, power-ups, score, bombs, drops,
  physics-layer masks, which bullet strikes which target, sprite-sheet cells and colliders
  fitted to a sprite's opaque pixels.
- `tests/` runs the library on concrete values.
- `app/` is the game: window, input, rendering, physics, timers and every amount measured in
  floating point (hit points, speeds, positions, durations).
