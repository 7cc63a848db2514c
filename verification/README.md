# typd

The verified core of `typd`, an on-screen keyboard for Wayland compositors.

- `src/layout.rs`: the key tables of the main keyboard and the sidebar, and
  the order and numbering in which the keys are laid out.
- `src/keycodes.rs`: keycode classes (repeating keys, modifiers), the XKB
  modifier mask and the virtual-keyboard requests that type one key.
- `src/physical.rs`: the held keys and modifier states of the physical
  keyboard.
- `src/window.rs`: resize edges, cursor shapes and the pixel format.
- `src/state.rs`: the keyboard's state and its decisions on clicks, timer
  ticks, pointer and keyboard events.
- `app/`: the Wayland client around the library: surfaces, event loop,
  Cairo drawing and the pixel geometry of the keys.

Key widths are kept in hundredths of a standard key and times in
milliseconds, so that the library works on integers throughout.
