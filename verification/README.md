# flag_on_caret

The logic of a Windows tray utility that shows the current keyboard-layout
flag next to the text caret and on the mouse cursor, verified with Verus.

- `src/utf16.rs`: UTF-16 encoding of names and paths (`wide`), lossy decoding
  of buffers returned by the window system, with the round-trip law.
- `src/caret.rs`: which caret probes to run for a window class, in which
  order, how each probe's raw answer is read, and the fall-through from one
  probe to the next (`probe_step`).
- `src/layout.rs`: the current layout, console layout names, and the window
  classes of consoles and popup menus.
- `src/geometry.rs`: fixed parameters, layout identifiers, file names, the
  full-screen test and the composition of a flagged cursor.
- `src/overlay.rs`: the state behind the caret and cursor timers, as step
  functions with laws (guards, a still caret left alone, flag reuse, no
  re-baking of an unchanged cursor, restoring the cursors once on an unknown
  layout, image caching).
- `app/`: the Win32 / GDI+ / tray side that performs the actions.
