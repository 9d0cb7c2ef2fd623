# vector-app

The app shell of Vector, a native macOS terminal, split in two:

- `src/` is the library `vector_app`: the shell's decisions, each with a
  Verus contract. Toasts and their lifetimes; the Cmd-F search bar
  (smart-case regex, the 1000-match cache, restoring the selection); the
  Cmd-Shift-P profile picker (fuzzy ranking); OSC 52 clipboard routing by
  profile policy; Cmd-click link dispatch; the IME composition state;
  output coalescing and frame pacing; the reconnect state machine of a pane
  and its backoff schedule; the input lock, badge and status bar of a
  reconnecting pane; window-resize debouncing; the Dev Tunnels picker and
  its load protocol; the Codespaces picker's rows, filter and footer; the
  GitHub device-flow sign-in decisions; the Secure Keyboard Entry switch
  calls; menu rows; profile tints; the copy shown to users.
  Laws that span several calls are public proof functions next to the
  functions they relate.
- `app/` is the program around it: winit windows, AppKit menus and panels,
  the wgpu renderer, the tokio I/O thread and the config-file watcher. It
  performs what the library decides.
- `tests/` runs the library on concrete inputs.
