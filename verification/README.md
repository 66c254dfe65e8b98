# directwrite

Glyph rasterization powered by DirectWrite, with its decisions verified by
[Verus](https://github.com/verus-lang/verus).

- `src/` is the verified library. It holds which fonts are loaded and under
  which keys, how a font face is selected, when a fallback font is consulted,
  which color layers of a glyph are kept, how layers are composited into a
  bitmap, and how text is encoded. Where DirectWrite has to be asked, the
  library says what to ask next, and takes the answer as a plain value.
- `tests/` runs the library on concrete values.
- `app/` performs what the library asks for (`driver`), and does the floating
  point arithmetic: blending a color over a pixel (`blend`), and scaling the
  metrics of a font (`scale`). The calls themselves, through `dwrote` and
  `winapi`, stand in `platform`, which exists on Windows only.

## Layout of the library

| Module       | What it holds                                               |
|--------------|-------------------------------------------------------------|
| `bounds`     | rectangles of pixels                                        |
| `layer`      | color layers and their coverage                             |
| `color_runs` | which color runs of a glyph become layers                   |
| `composite`  | compositing of layers into a bitmap                         |
| `color_glyph` | the glyph that color runs make, or that there is none       |
| `glyph_run`  | what is rendered, and how                                   |
| `font`       | descriptions, keys and loaded fonts                         |
| `rasterizer` | the loaded fonts and their keys                             |
| `load`       | how a font is selected and loaded                           |
| `lookup`     | which font a glyph is taken from, and what is reported      |
| `metrics`    | what the metrics of a font are taken from                   |
| `raster`     | how a glyph becomes a bitmap                                |
| `glyph`      | glyph keys and bitmaps                                      |
| `error`      | errors                                                      |
| `hresult`    | result codes and their messages                             |
| `locale`     | the locale of a text                                        |
| `utf16`      | UTF-16                                                      |
| `text`       | text that is built character by character                   |
