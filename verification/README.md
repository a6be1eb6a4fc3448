# wlrip

Decision logic of a CS2 ESP/aim assistant for native Wayland, verified with Verus.

- `src/` — the verified library:
  - `penetration`: surface and weapon tables for the wall-penetration estimate (modifiers and
    penetration power in tenths, base damage in hit points) and the surface-name classifier.
  - `shot_log`: the HUD's shot log (recent entries, totals, shots-fired tracking).
  - `triggerbot`: scheduling of a triggerbot shot, its press/release ticks and the refire cooldown.
  - `lagdbg`: per-second accumulation of the game loop's timing measurements.
  - `gates`: the checks that let the aimbot aim and the triggerbot fire.
  - `game`: the game loop's status messages, tick pacing and idle pause.
  - `cs2`: the feature state kept between game-loop ticks, with the shot-log and triggerbot ticks.
- `app/` — the runtime around it: clocks, floating-point penetration estimate and head sampling,
  random delays, log formatting, the game loop driver and the Wayland overlay.
- `tests/` — tests of the library.
