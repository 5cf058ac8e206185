# rubiks_cube

A 3x3x3 twisty cube: sticker state, face turns in standard notation (`R U R' U'`), random
scrambles, undo/redo, and the integer layout that a 2D net view and a 3D view draw from.

- `src/` is the library, verified with Verus. `cube` holds the cube and its turns, specified
  as where each sticker comes from; `cube::moves` the faces, moves, notation parser, inverse
  sequences and scrambles; `cube::laws` what turns keep (repeats, inverses, centres,
  injectivity); `history` the undo/redo stacks; `playback` the queue of moves being
  animated; `net` and `cubie` the 2D and 3D view layout.
- `app/` is the egui/eframe program around it: windows, drawing, animation timing, fonts.
- `tests/` runs the library on concrete cubes.
