//! A parsed TrueType face, as far as the atlas needs it: parsing, and the decision
//! whether a character that is not cached yet has a glyph to rasterize.
use vstd::prelude::*;
use crate::font_face::{parse_font_bytes, lookup_glyph_index, ttf_glyph_index, ttf_parse_error};
pub use crate::font_face::TtfFace;
use crate::glyphs::{missing_glyph, Advance, CachedGlyph};

verus! {

/// Why a font could not be loaded.
#[derive(Debug, PartialEq, Eq)]
pub enum FontError {
    /// fontdue refused the bytes, with this message.
    Parse(String),
}

/// What to do with a character that is not cached yet.
#[derive(Clone, Copy, Debug, PartialEq, Eq, Structural)]
pub enum RasterPlan {
    /// The font has no glyph for it: draw nothing, advance by half an em.
    Missing(CachedGlyph),
    /// Rasterize it and take the bitmap into the atlas.
    Rasterize,
}

/// The plan for a character whose glyph index is `idx`.
pub open spec fn plan_for_index_spec(idx: u16) -> RasterPlan {
    if idx == 0 { RasterPlan::Missing(missing_glyph()) } else { RasterPlan::Rasterize }
}

/// The plan for a character whose glyph index is `idx`: index 0 means the font has no
/// glyph for it.
pub fn plan_for_index(idx: u16) -> (plan: RasterPlan)
    ensures
        plan == plan_for_index_spec(idx),
{
    if idx != 0 {
        RasterPlan::Rasterize
    } else {
        RasterPlan::Missing(CachedGlyph {
            atlas_x: 0,
            atlas_y: 0,
            placed: false,
            width: 0,
            height: 0,
            bearing_x: 0,
            bearing_y: 0,
            advance: Advance::HalfEm,
        })
    }
}

impl TtfFace {
    /// Parses font bytes with fontdue's default settings.
    pub fn parse(bytes: &[u8]) -> (r: Result<TtfFace, FontError>)
        ensures
            r is Ok <==> ttf_parse_error(bytes@) is None,
            r matches Err(FontError::Parse(msg)) ==> ttf_parse_error(bytes@) == Some(msg@),
            r matches Ok(face) ==> face@ == bytes@,
    {
        match parse_font_bytes(bytes) {
            Ok(face) => Ok(face),
            Err(msg) => Err(FontError::Parse(msg)),
        }
    }

    /// The plan for `ch`, decided by its glyph index in this font as `plan_for_index`
    /// decides it: missing where the index is 0, to be rasterized otherwise.
    pub fn plan(&self, ch: char) -> (plan: RasterPlan)
        ensures
            plan == plan_for_index_spec(ttf_glyph_index(self@, ch)),
    {
        let idx = lookup_glyph_index(self, ch);
        plan_for_index(idx)
    }
}

} // verus!
