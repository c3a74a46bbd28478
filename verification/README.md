# tanchishe

The rules of a grid snake game, verified with Verus.

- `src/` is the library: board geometry (`grid`), the snake (`snake`),
  food placement (`food`, with the random generator in `random`), one game
  step and scoring (`game`), the Hamiltonian-cycle autopilot (`ai`),
  keyboard input (`input`), the screens (`state`), the high score
  (`high_score`), the mute switch (`audio`) and the screen flow (`flow`).
  Every function carries a contract, and the proof functions state the
  laws of the game: the autopilot tours every cell exactly once and never
  collides before the board is full, food never appears on the snake, a
  step keeps the score equal to the food eaten, and requested headings
  never reverse the snake.
- `app/` is the Bevy front end: window, sprites, menus, sound, the
  high-score file and the systems that hand each frame's events to the
  library.
- `tests/` exercise the library on concrete games.
