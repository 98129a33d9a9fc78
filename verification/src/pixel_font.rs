//! The texture of the built-in 8x8 pixel font.
//!
//! The texture is 8 texels wide and 1024 tall, one byte per texel: the 8x8 cell of
//! code point `c` fills rows `8c` to `8c + 7`.  Row `r` of a glyph comes from
//! font8x8's Basic Latin table, where bit `k` of the row byte lights texel `k`.
use vstd::prelude::*;
use crate::glyphs::{pixel_glyph, PIXEL_ATLAS_HEIGHT, PIXEL_ATLAS_WIDTH, PIXEL_GLYPH_COUNT};

verus! {

/// Number of bytes of the pixel font texture.
pub const PIXEL_TEXTURE_LEN: usize = 8192;

/// Byte of a lit texel.
pub const TEXEL_ON: u8 = 255;

/// Byte of an unlit texel.
pub const TEXEL_OFF: u8 = 0;

/// The eight row bytes of font8x8's Basic Latin glyph for code point `code`.
pub uninterp spec fn basic_glyph_rows(code: u8) -> Seq<u8>;

/// Calls `font8x8::BASIC_UNICODE[code]` and returns its bitmap, the eight row bytes of
/// the glyph of code point `code`.  The contract claims only that these bytes are a
/// fixed function of `code`.
#[verifier::external_body]
fn basic_unicode_rows(code: u8) -> (rows: [u8; 8])
    requires
        code < 128,
    ensures
        rows@ == basic_glyph_rows(code),
{
    font8x8::BASIC_UNICODE[code as usize].1
}

/// Where texel `col` of row `row` of the cell of code point `code` sits in the texture.
pub open spec fn texel_index(code: int, row: int, col: int) -> int {
    (code * 8 + row) * 8 + col
}

/// The byte of texel `col` of a glyph row whose bits are `bits`.
pub open spec fn texel_value(bits: u8, col: u8) -> u8 {
    if (bits >> col) & 1u8 == 1u8 { TEXEL_ON } else { TEXEL_OFF }
}

/// The cell of code point `code` in `texture` shows the glyph rows `rows`.
pub open spec fn cell_shows(texture: Seq<u8>, code: int, rows: Seq<u8>) -> bool {
    forall|row: int, col: int|
        0 <= row < 8 && 0 <= col < 8 ==> #[trigger] texture[texel_index(code, row, col)]
            == texel_value(rows[row], col as u8)
}

/// The whole pixel font texture: every Basic Latin cell shows font8x8's glyph.
pub open spec fn is_pixel_font_texture(texture: Seq<u8>) -> bool {
    &&& texture.len() == PIXEL_TEXTURE_LEN
    &&& forall|code: int| 0 <= code < 128 ==> #[trigger] cell_shows(texture, code, basic_glyph_rows(code as u8))
}

/// Paints the 8x8 cell of code point `code` with the glyph rows `rows`, leaving every
/// other texel as it was.
pub fn paint_glyph_cell(texture: &mut Vec<u8>, code: u8, rows: [u8; 8])
    requires
        old(texture).len() == PIXEL_TEXTURE_LEN,
        code < 128,
    ensures
        final(texture).len() == PIXEL_TEXTURE_LEN,
        cell_shows(final(texture)@, code as int, rows@),
        forall|i: int|
            0 <= i < PIXEL_TEXTURE_LEN && !(code * 64 <= i < code * 64 + 64)
                ==> #[trigger] final(texture)@[i] == old(texture)@[i],
{
    let ghost start = texture@;
    let mut row: usize = 0;
    while row < 8
        invariant
            row <= 8,
            code < 128,
            texture.len() == PIXEL_TEXTURE_LEN,
            forall|r: int, c: int|
                0 <= r < row && 0 <= c < 8 ==> #[trigger] texture@[texel_index(code as int, r, c)]
                    == texel_value(rows@[r], c as u8),
            forall|i: int|
                0 <= i < PIXEL_TEXTURE_LEN && !(code * 64 <= i < code * 64 + 64)
                    ==> #[trigger] texture@[i] == start[i],
        decreases 8 - row,
    {
        let mut col: u8 = 0;
        while col < 8
            invariant
                row < 8,
                col <= 8,
                code < 128,
                texture.len() == PIXEL_TEXTURE_LEN,
                forall|r: int, c: int|
                    0 <= r < row && 0 <= c < 8 ==> #[trigger] texture@[texel_index(code as int, r, c)]
                        == texel_value(rows@[r], c as u8),
                forall|c: int|
                    0 <= c < col ==> #[trigger] texture@[texel_index(code as int, row as int, c)]
                        == texel_value(rows@[row as int], c as u8),
                forall|i: int|
                    0 <= i < PIXEL_TEXTURE_LEN && !(code * 64 <= i < code * 64 + 64)
                        ==> #[trigger] texture@[i] == start[i],
            decreases 8 - col,
        {
            let on = (rows[row] >> col) & 1u8;
            let value = if on == 1u8 { TEXEL_ON } else { TEXEL_OFF };
            let index = (code as usize * 8 + row) * 8 + col as usize;
            texture.set(index, value);
            col = col + 1;
        }
        row = row + 1;
    }
}

/// Builds the pixel font texture from font8x8's Basic Latin table.
pub fn pixel_font_texture() -> (texture: Vec<u8>)
    ensures
        is_pixel_font_texture(texture@),
{
    let mut texture: Vec<u8> = vec![TEXEL_OFF; PIXEL_TEXTURE_LEN];
    let mut code: u8 = 0;
    while code < 128
        invariant
            code <= 128,
            texture.len() == PIXEL_TEXTURE_LEN,
            forall|c: int| 0 <= c < code ==> #[trigger] cell_shows(texture@, c, basic_glyph_rows(c as u8)),
        decreases 128 - code,
    {
        let rows = basic_unicode_rows(code);
        let ghost before = texture@;
        paint_glyph_cell(&mut texture, code, rows);
        assert forall|c: int| 0 <= c < code + 1 implies #[trigger] cell_shows(texture@, c, basic_glyph_rows(c as u8)) by {
            if c < code {
                assert(cell_shows(before, c, basic_glyph_rows(c as u8)));
                assert forall|row: int, col: int|
                    0 <= row < 8 && 0 <= col < 8 implies #[trigger] texture@[texel_index(c, row, col)]
                        == texel_value(basic_glyph_rows(c as u8)[row], col as u8) by {
                    assert(before[texel_index(c, row, col)] == texel_value(basic_glyph_rows(c as u8)[row], col as u8));
                }
            }
        }
        code = code + 1;
    }
    texture
}

/// Law: the cached cell of every Basic Latin code point addresses exactly that code
/// point's bitmap in the texture: texel `(x, y)` of the cell, counted from the cell's
/// corner, is byte `texel_index(code, y, x)` of the row-major texture.
pub proof fn lemma_pixel_cell_addresses_bitmap(code: u32, x: int, y: int)
    requires
        code < PIXEL_GLYPH_COUNT,
        0 <= x < pixel_glyph(code).width,
        0 <= y < pixel_glyph(code).height,
    ensures
        ({
            let g = pixel_glyph(code);
            let tx = g.atlas_x + x;
            let ty = g.atlas_y + y;
            &&& 0 <= tx < PIXEL_ATLAS_WIDTH
            &&& 0 <= ty < PIXEL_ATLAS_HEIGHT
            &&& ty * PIXEL_ATLAS_WIDTH + tx == texel_index(code as int, y, x)
            &&& 0 <= texel_index(code as int, y, x) < PIXEL_TEXTURE_LEN
        }),
{
}

} // verus!
