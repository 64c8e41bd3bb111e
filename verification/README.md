# status_float

A small always-on-top capsule that shows what a coding assistant is doing:
working (orange, animated), waiting for permission (yellow, with a timer),
failed (red) or done (green for five seconds, then silent). State comes from
JSON files that hooks write; the look comes from a shared config file.

Layout:

- `src/` — the verified library (Verus): state ranking and colours
  (`status`), the lead-session choice, the frame plan (`frame`), the elapsed
  timer text (`timer`, `text`), the tray dot image layout (`dot`), the tray refresh
  decision (`tray_memo`), animation frame choice (`anim`), sprite decoding
  through the `image` crate (`sprite`), font fallback order (`fonts`) and the
  state-file name rule (`files`).
- `tests/` — tests of the library on concrete values.
- `app/` — the window, tray, file reading, timing, floating-point geometry
  (including the dot's per-pixel alpha) and painting around it.
