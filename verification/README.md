# common

The core of a launcher for the Miyoo Mini handheld consoles, as a library whose functions
carry contracts proved with Verus.

- `src/` is the library: geometry and colours, images and their rounded corners, the
  framebuffer's byte order and the stamping of held regions, battery readings, the state of
  the views (lists, carousels, labels, images, button hints, the status bar's indicators) and
  of the input widgets (keyboard, colour picker, date and time, select, toggle), and the
  stylesheet's values. Each module states what its functions compute; the public `lemma_`
  functions state properties that hold across calls.
- `app/` holds what runs around it: files and the SQLite database, fonts and drawing with
  tiny-skia and rusttype, translations, and the device itself (buttons, battery ADC,
  backlight, framebuffer).
- `tests/` runs the library on concrete values.
