# overlay_effect

The logic of a desktop overlay that shows mouse clicks and key presses above
all windows, with an optional chapter list and lap timer, verified with Verus.

- `src/` is the verified library: the persisted settings and chapter timer
  (`state`, `chapter`, `clock`), the chapter text with lap times (`laps`,
  `text`), key labels and keyboard layout detection (`keys`), the listener's
  key and pointer state (`input`), the overlay frame and pointer mapping
  (`geometry`), the input monitoring decisions (`monitoring`), the tray menu
  and the events sent to the overlay (`menu`), the running app state
  (`app_state`), and properties spanning several operations (`laws`).
- `app/` is the Tauri shell: commands, tray, global shortcut, window setup,
  the input listener thread, the state file and the clipboard.
- `tests/` runs the library on concrete values.
