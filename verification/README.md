# rosin (Win32 backend core)

The platform-independent part of rosin's Win32 backend, verified with Verus.

- `src/dispatch.rs`: running work on the thread that owns a window: the
  immediate, queued and blocking paths, and the table of action blocks
  that carries requests and results between threads, with laws about a
  request's round trip.
- `src/view.rs`: the per-window state: size bounds and the render target.
- `src/app.rs`: the application launcher and the one-launch rule.
- `src/message.rs`: what the window procedure and the message loop do with
  each message.
- `src/geometry.rs`, `src/style.rs`: window placement, pixel sizes and
  style bits.
- `src/text.rs`, `src/menu.rs`: UTF-16 conversion, clipboard text and menu
  entry titles.

`app/` holds the Win32 calls themselves (window creation, the window
procedure, the message loop, the clipboard, the shell), the floating-point
conversions, and the types of the rest of the toolkit that this layer
reads. `tests/` runs the library on concrete values.
