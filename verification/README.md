# cef_renderer

Offscreen web rendering for [Slint](https://slint.dev): a CEF browser draws its
pages into GPU textures, and their content is captured as raw RGBA pixels or as a
Slint image.

- `src/` is the library, verified with Verus: browser setup, the answers to the
  browser's questions about its view, what becomes of a painted frame, the layout
  of the readback buffer, taking the frame out of it, and the order of its
  channels.
- `tests/` are its tests.
- `app/` connects the library to CEF and wgpu: it shares the parts of the render
  handler behind locks, asks the browser for its host and main frame, performs the
  commands and plans that the library hands out, and reports back what came of
  them.

The library trusts two functions of Slint, both in `src/image.rs`; each says there
what is believed of it.

Shared textures are used where the program is built with the `webview` feature
(`--cfg feature="webview"`).

`Cargo.toml` names the `dox` feature of `cef`, with which that crate builds without
the CEF binaries. A program that runs needs the binaries and leaves the feature
out.
