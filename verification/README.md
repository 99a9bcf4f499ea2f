# Lobber

An artillery game inspired by Scorched Earth (1991): destructible terrain,
two ammunition types, wind, WoT-style damage randomness and a computer
opponent. It runs in a window (macroquad) or, with `--tui`, in a terminal
(ratatui + crossterm).

## Layout

- `src/` — the library `lobber`, verified with Verus:
  - `types` — ammunition types (names, switching) and AI difficulty levels;
  - `state` — turns and the game-over rule;
  - `control` — what one frame of input and of the game loop does, by phase;
  - `animation` — playback of a projectile's trajectory and its trail;
  - `pixel_buffer` — the pixel grid the terminal battlefield is painted into;
  - `terrain` — the order of midpoint displacement steps;
  - `constants` — integer settings (frame rate, trail length, step limits).
- `app/` — the game program: everything measured in floating point (physics,
  damage, terrain heights, AI aim, drawing), input and output.
- `tests/` — tests of the library.
