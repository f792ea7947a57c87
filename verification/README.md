# Tic-Tac-Tussle store

The verified core of an online tic-tac-toe game played over UDP, with a
Redpanda-backed event log.

- `src/` is the library, verified with Verus: the board rules, the decider
  (`decide`, `evolve`, `hydrate`), the invariant of every game it drives, the
  replay harness, the event store, the game service with its ports, the rules
  of the game client, and the user-data format that carries a player's name.
- `app/main.rs` is the server program (network, broker and the 20 Hz loop);
  `app/client/main.rs` is the Bevy client program. `app/wire.rs` holds the
  serde/bincode forms of the library's types.
- `tests/` runs the library on concrete games.
