# blt_backend

The input and colour logic of a terminal user-interface backend that runs on
BearLibTerminal, written in Verus with its behaviour stated and proved.

- `src/terminal.rs`: the values BearLibTerminal reports (key codes, input
  events, RGBA colours), held as plain data.
- `src/keymap.rs`: key codes to characters, keys and mouse buttons.
- `src/backend.rs`: the input state (held mouse buttons, mouse position) and
  the translation of terminal events into user-interface events.
- `src/colors.rs`: colour conversion, colour pairs and the reverse effect.
- `src/input.rs`: the decision of each turn of the input-waiting loop.
- `src/geometry.rs`, `src/theme.rs`, `src/event.rs`: the user-interface types.
- `app/`: the terminal I/O around the library: opening the window, reading
  events, querying and setting colours, printing, and the waiting loop.
