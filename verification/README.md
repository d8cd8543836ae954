# dice_roller

The rules of a dice-rolling table, verified with Verus.

- `src/` is the library: tray materials (`material`), the die table and
  the rolls (`dice`, `roll`), the positions of the buttons, badges and
  result block (`layout`), the result panel (`results`), widget looks
  (`style`), the initial widgets (`ui`), decimal text (`text`), the asset
  directory (`assets`) and the state of the table during play (`session`).
- `app/` is the game around it: the window and the engine, asset
  unpacking, and the floating-point physics of the dice in the tray.
- `tests/` runs the library on concrete values.
