# desktop_notes_display

A small e-paper "desktop notes" display and the server that feeds it.

- `src/` is the verified library (Verus):
  - `chars`, `lines`, `links`, `markdown`: the note's text format, from its
    characters to lines, links, headers, list items and their redrawn markers;
  - `todo`: the filter that turns the note into the page the display shows
    (`handler`), with the laws it keeps;
  - `display`: the 64 by 63 framebuffer and drawing into it;
  - `firmware`: the decisions of the device's main cycle, Wi-Fi task and download, as
    state machines;
  - `config`, `example_config`: where the server listens and finds the note.
- `app/` is the note server (axum and tokio) and the `embedded_graphics`
  draw target over the library's framebuffer.
- `tests/` exercises the library, and checks the page against the line
  patterns of the note format written with the `regex` crate.
