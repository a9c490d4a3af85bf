# doukutsu_logic

Verified game logic of a Cave Story engine, written in Verus.

- `src/player_hit.rs`: the player's collisions with map tiles (solid blocks, the
  eight slope kinds, water) and one pass over the tiles around the player, each
  specified over `player::Body`; `src/collision_laws.rs` proves what every pass
  keeps (contact flags are never cleared), that resolving a block or slope twice is
  resolving it once, and where a wall leaves the player.
- `src/npc/misery.rs`: the state machines of Misery's bubble and of floating Misery;
  a tick returns the sounds, spawns and deaths it asks of the game.
- `src/shared_game_state.rs`: the shared state (game flags in a `bitvec` bit
  vector, keys, visual effects) with its reset, key-trigger and effect updates.
- `app/`: file probing, floating-point screen and bubble-angle computations, and
  the glue that carries out what the NPC ticks ask for.
