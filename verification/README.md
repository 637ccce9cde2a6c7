# win_gnome

The window logic of a small Windows overlay tool, verified with Verus.

- `src/` decides on plain values: the marker window's creation requests, window
  procedure (including the paint sequence) and message-loop step, the label
  window's outcome, the mouse hook's parameters and outcome, and the
  UI Automation entry point. Win32 constants live in `src/win32.rs`.
- `app/` performs the Win32 (Windows only) and winit calls those decisions
  name, and hands the answers back.
- `tests/` runs the library on concrete values.
