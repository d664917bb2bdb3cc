# papitas

The rules of Papitas, a small farming game for the Godot engine: the
player plants seeds, digs up potatoes, fights slimes for coins and buys
seeds and powers from a merchant.

- `src/` is the verified library (Verus). Every engine object has a plain
  state machine here: `global_state` (life, coins, seeds, score, buff,
  power), `coin`, `dirt`, `papita`, `player`, `slime`, `merchant`, `game`
  (waves), `title` and `menus` (title screen, pause menu, signs), `hud`
  and `persistence` (best score). `clock`, `random` and `text` hold the
  trusted calls into `instant`, `rand` and std.
- `app/` is the engine glue (gdnative): it reads input and the scene,
  feeds plain values to the library and applies its decisions.
- `tests/` runs the library on concrete values.

Life is counted in half hearts inside the library (a full life is 6).
