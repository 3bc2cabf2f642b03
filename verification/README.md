# mediasnare

Screen, audio and image capture for the Linux desktop (Cinnamon first, with
portal and X11 fallbacks), written as a verified library plus a thin GTK
application.

## Layout

- `src/` — the library, verified with Verus. Each public function states its
  result over spec functions and views; laws about several calls are public
  proof functions (names starting with `lemma_`).
  - `text` — decimal formatting and parsing, whitespace tokens, lines,
    replace-all.
  - `capture` — encoding profiles, GStreamer element and pipeline
    descriptions, crop and layout arithmetic, output paths, audio sources,
    image encodings and the capture fallback order.
  - `portal` — portal response codes, reading D-Bus results, the Cinnamon
    shell calls.
  - `window` — the main window as a state machine (`MainWindow::update`
    returns the effects to perform), the recording bar's buttons and
    placement, the region overlay's key and drag decisions, and the values of
    the preferences dialog.
- `app/` — the program: GTK/relm4 widgets, GStreamer pipelines, D-Bus calls,
  settings and files. It performs the effects the library decides.
- `tests/` — tests of the library on concrete values.

Trusted items bridge to outside code: `String::push`,
`str::to_lowercase` (its result named `lowercase`), the size check of
`image::ImageBuffer::from_raw`, and `DynamicImage::to_rgb8` (its result
named `rgb_of_rgba`).
