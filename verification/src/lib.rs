//! Integer core of a small 2D engine: glyph-atlas shelf packing, the glyph cache,
//! the built-in 8x8 pixel font, the per-frame text vertex arena, surface sizing and
//! the frame-loop decisions.  Everything that talks to the GPU, the window system or
//! works in floating point lives in the application around this library.

pub mod atlas;
pub mod glyphs;
pub mod pixel_font;
pub mod font_face;
pub mod ttf;
pub mod vertex_arena;
pub mod surface;
pub mod engine;
