# Patrick Star

A screen-capture tool: select a region of the desktop, annotate it, then copy, save, pin,
extract its text or extend it by scrolling.

`src/` is the verified library. Every function there carries a `requires`/`ensures` contract
that Verus proves:

- `geometry`, `export`, `frame`, `pixels`, `clipboard`: integer rectangles, crops of the
  virtual desktop, BGRA/RGBA frames and the clipboard's bitmap layout.
- `capture`, `overlay`, `toolbar`, `cursor`, `keys`, `tool`, `color`: which overlay commands
  exist and are enabled, what a key or a toolbar command does, and which cursor shows.
- `history`, `caret`, `text`: undo/redo, caret movement in multi-line text, UTF-8/UTF-16
  handling.
- `scroll`: matching, stitching and previewing a scrolling capture.
- `output`, `save`: PNG and JPEG encoding (through the `png` and `jpeg-encoder` crates) and
  the choice of file format.
- `hotkey`, `locator`, `window`, `ocr`, `platform`: shortcut mapping, window detection under
  the pointer, hit testing of borderless windows, text-recognition results and platform
  capabilities.

`app/` is the program around the library: the editing model, whose geometry is `f32`, and
the platform layer, which does the I/O. `tests/` exercises the library on concrete values.
