# vale_village

Game rules of Vale Village, a small tile-based RPG, written in Verus and
proved against their contracts.

- `src/` is the verified library: the party and its story flags, difficulty,
  bestiary, achievements and weather (`core_plugin`), the Tower of Trials
  (`tower`), the shop (`shop`), inventory and party management (`inventory`,
  `inventory_view`), the overworld map, villagers, movement and random
  encounters (`overworld`), save snapshots (`save`), menus, fades and the
  tutorial tips (`ui`, `timer`), the battle screen (`battle_ui`), audio and
  sprite lookups (`audio`, `sprites`), and the first screen model
  (`screens`). Random draws go through `random`, which calls `rand`.
- Values that the engine keeps as floating point (volumes, fade opacity,
  weather intensity, timers) are whole numbers here: percentages,
  thousandths, millionths and milliseconds.
- `app/` is the shell around the library: save files on disk (`ron`,
  `dirs`), the serialised forms of saved values, colours and other
  floating-point presentation, and the engine plugin that drives screen
  fades.
- `tests/` exercises the library from outside.
