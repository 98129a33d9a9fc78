# wgpu_triangle

A small WebGPU 2D engine. The crate under `src/` is its integer core, with machine-checked
contracts; `app/` is the program around it (window, GPU, floating-point layout).

- `atlas` – shelf packing of glyph bitmaps into a square atlas; packed rectangles
  never overlap and stay inside the atlas.
- `glyphs` – the glyph cache of a font atlas (TrueType or the built-in pixel font).
- `pixel_font` – the 8x8 pixel font texture, built from font8x8's Basic Latin table.
- `ttf` – parsing TrueType bytes with fontdue and deciding which characters to rasterize.
- `vertex_arena` – per-frame regions of the shared text vertex buffer and its growth.
- `surface` – the surface size, never zero.
- `engine` – what the frame loop does with each window event.
