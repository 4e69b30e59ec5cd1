# handmade

A small hand-made game for a Wayland desktop, with its logic verified by Verus.

The game draws a blue/green gradient that scrolls with keyboard and gamepad
input and plays a tone. Its verified core lives in `src/`:

- `game` — the game's input types, its persistent state (stored at the start of
  permanent storage), the frame update, the gradient (`game/render.rs`) and the
  framing of sound samples.
- `platform` — what the platform layer decides: keyboard and gamepad input
  bookkeeping, the window's back buffer, the reactions to compositor events,
  and the simpler front end's event handling.
- `wl`, `xdg` — the Wayland requests the platform layer sends, as opcodes with
  their arguments; `pw` — sizing of sound blocks; `libevdev` — the gamepad scan
  and event-reading decisions; `sys` — shared memory files and size units;
  `handle` — typed addresses of outside objects; `grid` — index arithmetic over
  row-major byte buffers; `debug_platform` — the debug file services of a
  release build.

`app/` is the program around it: the system, Wayland, PipeWire and evdev calls,
the floating-point sound and stick computations, and the main loops
(`--simple` selects the simpler front end). `tests/` exercises the library.
