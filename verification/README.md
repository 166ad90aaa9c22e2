# feverdream

The rules of a small tactical card game played on a tile grid, written in Verus and
proved against their contracts.

- `src/` holds the verified library: the board (`grid`, `tile`, `coords`, `movement`),
  card effects and the cards themselves (`effect`, `card`, `pile`, `play`, `level`),
  the temperature and heat rules (`temp`, `heat`), the enemies' turn (`enemy`, `turn`),
  the older dice rules (`die`, `action`, `card_action`), screen and focus states
  (`screen`, `focus`, `fade`, `ui`, `observer`), the backdrop (`background`), and text helpers (`text`). The hash maps,
  the random source and the path search come from outside crates behind small trusted
  wrappers (`maps`, `random`, and `shortest_walk` in `grid`).
- `tests/` runs the library on concrete boards, decks and timers.
- `app/` is the Bevy application around the library: the ECS systems and events, the
  world-space geometry in floats, and the error types with their `Display`.
