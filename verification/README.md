# motsdits

The verified core of the MotsDits desktop shell (a Tauri application with a
GTK recording overlay on Linux).

- `src/` is the Verus library: platform decisions (`platform`), main window
  configuration, the WebView2 profile recovery protocol and the frontend
  watchdog (`startup`), WebView profile location, recovery cool-down,
  corruption detection, backup naming and pruning (`webview_profile`), the
  overlay's visibility, scenes and status animation (`overlay`), and the
  character-level text operations they use (`text`).
- `app/` is the Tauri/GTK glue that gathers facts (files, window handles,
  clock, settings), asks the library what to do, and does it. Drawing with
  floating-point geometry and the smoothing of audio levels live there.
- `tests/` runs the library on concrete values.
