# tetris

The rules of a small falling-block puzzle game, verified with Verus, and a
window around them.

- `src/shapes.rs` — the seven pieces in their four rotations.
- `src/board.rs` — the field as rows of cell states: collision, placing a
  piece, line clearing, the game-over picture, where a dropped piece rests.
- `src/keys.rs` — the key states the game tracks between frames.
- `src/game.rs` — `MainState`, its model `GameModel`, the well-formedness
  invariant, and the per-frame rules (`update`, `update_with`) and key events,
  each with a contract over the model.
- `src/random.rs` — the next piece's kind, drawn with `rand`.
- `src/laws.rs` — properties of the rules across all inputs.
- `app/main.rs` — window, drawing and keyboard mapping with `ggez`.
