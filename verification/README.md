# windowing

A small windowing library. `src/` is verified with Verus:

- `buttons`, `events`: the keys, mouse buttons and input events.
- `state_tracker`, `application`: which keys and buttons are held and which went
  down since the last draw, updated around the program's callback.
- `keys_mac`: the macOS virtual keycode table.
- `window_mac`: window ids, window records and the layout of a new macOS window.
- `window_manager_windows`: the Win32 window builder, UTF-16 strings, and the
  parameters of window creation.

`app/` holds the platform glue: the event loop and application handle, and the
Win32 and web calls.
