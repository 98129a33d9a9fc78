//! A TrueType face as fontdue parses it, and the two calls into fontdue that read
//! it.  A face is built only by fontdue's parser, so its font is always the one parsed
//! from the bytes it records.
use vstd::prelude::*;

verus! {

/// fontdue's parsed font; its contents are not visible to proofs.
#[verifier::external_type_specification]
#[verifier::external_body]
pub struct ExFontdueFont(fontdue::Font);

/// The message with which fontdue refuses to parse `bytes` as a font with its default
/// settings, or `None` where it accepts them.
pub uninterp spec fn ttf_parse_error(bytes: Seq<u8>) -> Option<Seq<char>>;

/// Calls `fontdue::Font::from_bytes(bytes, fontdue::FontSettings::default())` and
/// keeps the parsed font in a face that records `bytes` as its source.  The contract
/// claims that fontdue accepts or refuses the same bytes alike every time, and hands
/// back its refusal message; what the parsed font holds is left unsaid.  This is the
/// only place where a face is built.
#[verifier::external_body]
pub(crate) fn parse_font_bytes(bytes: &[u8]) -> (r: Result<TtfFace, String>)
    ensures
        match r {
            Ok(face) => ttf_parse_error(bytes@) is None && face@ == bytes@,
            Err(msg) => ttf_parse_error(bytes@) == Some(msg@),
        },
{
    match fontdue::Font::from_bytes(bytes, fontdue::FontSettings::default()) {
        Ok(font) => Ok(TtfFace { font, source: Ghost(bytes@) }),
        Err(msg) => Err(msg.to_string()),
    }
}

/// The glyph index of `ch` in the font that fontdue parses from `font_bytes` with its
/// default settings: 0 where that font has no glyph for `ch`.
pub uninterp spec fn ttf_glyph_index(font_bytes: Seq<u8>, ch: char) -> u16;

/// Calls `fontdue::Font::lookup_glyph_index` on the font of `face` for `ch`.  That font
/// is the one fontdue parsed from the bytes `face@`, so the contract claims that the
/// index is a fixed function of those bytes and `ch`; which function is left unsaid.
#[verifier::external_body]
pub(crate) fn lookup_glyph_index(face: &TtfFace, ch: char) -> (idx: u16)
    ensures
        idx == ttf_glyph_index(face@, ch),
{
    face.font.lookup_glyph_index(ch)
}

/// A parsed TrueType (or OpenType) face.
pub struct TtfFace {
    font: fontdue::Font,
    source: Ghost<Seq<u8>>,
}

impl View for TtfFace {
    /// The bytes the face was parsed from.
    type V = Seq<u8>;

    closed spec fn view(&self) -> Seq<u8> {
        self.source@
    }
}

impl TtfFace {
    /// The rasterizer fontdue built for this face.
    pub closed spec fn font(&self) -> fontdue::Font {
        self.font
    }

    /// The rasterizer behind this face: the font fontdue parsed from `self@`.
    pub fn rasterizer(&self) -> (font: &fontdue::Font)
        ensures
            *font == self.font(),
    {
        &self.font
    }
}

} // verus!
