use wgpu_triangle::glyphs::{GlyphAtlas, GlyphLookup, PIXEL_ATLAS_WIDTH};
use wgpu_triangle::pixel_font::{paint_glyph_cell, pixel_font_texture, PIXEL_TEXTURE_LEN, TEXEL_OFF, TEXEL_ON};

#[test]
fn texture_holds_font8x8_basic_latin() {
    let texture = pixel_font_texture();
    assert_eq!(texture.len(), PIXEL_TEXTURE_LEN);
    assert_eq!(PIXEL_TEXTURE_LEN, 8 * 1024);
    for code in 0..128usize {
        let rows = font8x8::BASIC_UNICODE[code].1;
        for row in 0..8usize {
            for col in 0..8usize {
                let lit = (rows[row] >> col) & 1 == 1;
                let expected = if lit { 255u8 } else { 0u8 };
                assert_eq!(texture[(code * 8 + row) * 8 + col], expected);
            }
        }
    }
}

#[test]
fn space_cell_is_dark_and_letter_cell_is_not() {
    let texture = pixel_font_texture();
    let space = 32 * 64;
    assert!(texture[space..space + 64].iter().all(|b| *b == TEXEL_OFF));
    let a = 65 * 64;
    assert!(texture[a..a + 64].iter().any(|b| *b == TEXEL_ON));
}

#[test]
fn paint_touches_only_its_cell() {
    let mut texture = vec![7u8; PIXEL_TEXTURE_LEN];
    paint_glyph_cell(&mut texture, 2, [0b0000_0001, 0b1000_0000, 0, 0xff, 0, 0, 0, 0b0101_0101]);
    for i in 0..PIXEL_TEXTURE_LEN {
        if i < 128 || i >= 192 {
            assert_eq!(texture[i], 7);
        }
    }
    assert_eq!(texture[128], 255);
    assert_eq!(texture[129], 0);
    assert_eq!(texture[128 + 8 + 7], 255);
    assert_eq!(texture[128 + 8 + 6], 0);
    assert!(texture[128 + 24..128 + 32].iter().all(|b| *b == 255));
    assert_eq!(&texture[128 + 56..128 + 64], &[255, 0, 255, 0, 255, 0, 255, 0]);
}

#[test]
fn cached_cell_addresses_its_bitmap() {
    let atlas = GlyphAtlas::new_pixel();
    let texture = pixel_font_texture();
    let rows = font8x8::BASIC_UNICODE['g' as usize].1;
    match atlas.lookup('g') {
        GlyphLookup::Cached(cell) => {
            for y in 0..cell.height {
                for x in 0..cell.width {
                    let index = ((cell.atlas_y + y) * PIXEL_ATLAS_WIDTH + cell.atlas_x + x) as usize;
                    let lit = (rows[y as usize] >> x) & 1 == 1;
                    assert_eq!(texture[index] == TEXEL_ON, lit);
                }
            }
        }
        other => panic!("'g' not cached: {:?}", other),
    }
}
