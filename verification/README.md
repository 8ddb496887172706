# engine

The effects of a climate-policy game's events, projects and processes on the game state.

- `src/state.rs` — the part of the game state that effects change through whole numbers,
  switches and lists (`State`, `EventPool`), and the models the contracts speak of.
- `src/effects.rs` — `Request`, `Flag`, `PlayerVariable`, the `Effect` enum of those
  effects, `Effect::apply` / `Effect::unapply` with exact contracts, checks of when they
  are defined, and `check_game_over`.
- `src/laws.rs` — proved properties across the operations: reversing a reversible effect
  undoes it, a game once over stays over, irreversible effects reverse to nothing, and an
  auto-click has no impact.
- `app/` — the effect with fractional amounts as the game data writes it (serde), its
  scaling, and the arms of applying it that work on floating-point quantities; it hands
  every other effect to the library.
- `tests/` — scenarios for each effect and each law.
