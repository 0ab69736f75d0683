# tww_challenge

The rules of a "Backwards is Forwards" challenge for The Legend of Zelda: The
Wind Waker, written in Verus.

- `src/model.rs`: stages, entrances, warps, items, banners, and the `Effect`s
  the rules ask the game to perform.
- `src/inventory.rs`: which inventory slot mirrors the item equipped on X.
- `src/windfall.rs`: the flower puzzle on Windfall Island and the rupee meter.
- `src/controls.rs`: the controller hook (button masking, rerouted exits).
- `src/challenge.rs`: the frame hook and what the challenge remembers between
  frames.
- `app/lib.rs`: the hooks that the patched game calls; they read game memory
  through `libtww`, call the library, and apply its effects.
