# dwm_decorator

A window decorator for the Windows desktop window manager: it colors window
borders by whether a window is active and topmost, toggles the foreground
window's topmost state and changes its transparency from hotkeys, all driven
by `config.toml`.

- `src/` is the verified library (Verus): configuration decoding
  (`configuration`), CSS colors and `COLORREF` packing (`color`), hotkey
  bindings (`hotkey`), hotkey actions (`keys`), and window-style arithmetic
  with the per-window attribute plan (`window`).
- `app/` is the Windows program around it: file and log I/O, the Win32 calls,
  threads and the message loop. It hands the library plain values and carries
  out the attribute writes that the library decides.
- `tests/` runs the library on concrete values.
