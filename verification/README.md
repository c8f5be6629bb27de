# gunday

The rules of a side-scrolling shooter, verified with Verus.

- `src/` is the library: the game phases, how player projectiles are shared out among
  enemies, explosion and death-blink animations, the state machines of the three enemy types
  and of the two-stage boss fight. Each step function is stated exactly over spec functions,
  and the properties the game relies on (phases announce only real changes, a projectile hits
  one enemy at most, animation frames stay in range, a burst fires its exact number of shots,
  the boss never goes back a stage, the defeat sequence runs once) are proved as laws.
- `app/` is the Bevy game around it: plugins, components with their timers and positions,
  rendering, sound, physics in floating point, and the systems that feed frame observations
  to the library and apply its decisions.
- `tests/` exercises the library on concrete values.
