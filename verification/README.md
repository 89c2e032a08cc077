# truinlag

The game engine of TrainLag, a game of catch played on public transport, as a Verus-verified
library.

- `src/` is the library, verified by Verus: the data types clients and the engine exchange, the
  in-memory mirror of the database collections (`mirror`), the game configuration (`config`),
  teams (`team`), sessions (`session`) and the engine that answers every command (`engine`),
  the generation of challenges (`generation`, `opening`), timers (`timer`), and the client-side
  routing of responses (`distributor`, `replies`). The randomness and the clock come through
  `world`; what is computed in floating point (points, distances, name similarity) comes through
  the `GameEnv` trait (`env`).
- `app/` is the server around it: the Unix socket, the async runtime, the database, the
  floating point side of the game, and the serde copies of the library's types.
- `tests/` holds the tests of the library.
