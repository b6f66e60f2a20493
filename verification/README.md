# game_core

The verified logic of a small multiplayer bell-jumping game: a crab jumps
from bell to bell (and bird to bird), scoring on the way up.

- `src/` is the library, checked by Verus:
  - `digits`: the decimal digits of a score, the element indices that draw
    them, and the digit counts of a displayed number;
  - `ids`: entity identities (UUIDs) and scores, and their wire form as two
    64-bit halves;
  - `bird`, `player`: the bird and player state machines and the restart of
    a round;
  - `tutorial`: when the tutorial and the last score are shown;
  - `world`: online and offline play, the identities the server sent, and
    what each entry of a server message does;
  - `background`: which cells of the sky have stars;
  - `pointer`, `connection`, `difficulty`, `shader`: pointer input, server
    connection numbering, difficulty steps, and shader source preparation;
  - `texture`: PNG bytes decoded (by the image crate) into the RGBA8
    pixels of a texture;
  - `debug`: the styles of debug rectangles.
- `tests/` runs the library on concrete values.
- `app/` holds the rest of the game: the specs entity-component glue, the
  floating-point physics and camera, WebGL rendering, the browser client and
  the websocket server.
