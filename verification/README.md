# stdgotchi

The screen logic of a small monster-taming game for a touch display, written in
Verus: what each screen lays out as touch areas, what a tap on it asks for, and
how the battle screens move from turn to turn.

- `src/` is the verified library. `geometry`, `touch` and `order` hold the hit
  tests, the first-area-wins touch lookup and a stable sort; `element` the
  elements and their palettes; `page` the trait every screen implements; and
  `pages/` one module per screen. Randomness (`random`), the wall clock
  (`clock`) and the rectangle hit test of `embedded-graphics` are reached through
  small trusted wrappers whose contracts say what the outside code guarantees.
- `app/` is the unverified glue around the library: the frame loops of the
  dungeon fight and the 3v3 battle with their timers in seconds, the numbers the
  game computes in floating point (damage spread, drop rolls, health bars), and
  drawing helpers with `embedded-graphics` that paint the death, dungeon defeat
  and AFK farm screens. The other screens' painting is not part of this crate;
  the game's data and its damage rules (`CombatRules`) are supplied by the game
  that embeds these screens.
- `tests/` runs the library on concrete screens and fights.
