use wgpu_triangle::atlas::PackerModel;
use wgpu_triangle::glyphs::{
    Advance, CachedGlyph, GlyphAtlas, GlyphLookup, ATLAS_SIZE, PIXEL_ATLAS_HEIGHT, PIXEL_ATLAS_WIDTH,
    PIXEL_GLYPH_COUNT, PIXEL_GLYPH_SIZE,
};

fn pixel_cell(code: u32) -> CachedGlyph {
    CachedGlyph {
        atlas_x: 0,
        atlas_y: code * 8,
        placed: true,
        width: 8,
        height: 8,
        bearing_x: 0,
        bearing_y: 8,
        advance: Advance::Pixels(8),
    }
}

#[test]
fn pixel_font_caches_basic_latin() {
    let atlas = GlyphAtlas::new_pixel();
    assert!(atlas.is_pixel_font());
    assert_eq!(atlas.cached_count(), 128);
    assert_eq!(atlas.lookup('A'), GlyphLookup::Cached(pixel_cell(65)));
    assert_eq!(atlas.lookup('\u{0}'), GlyphLookup::Cached(pixel_cell(0)));
    assert_eq!(atlas.lookup('\u{7f}'), GlyphLookup::Cached(pixel_cell(127)));
    assert_eq!(PIXEL_GLYPH_COUNT * PIXEL_GLYPH_SIZE, PIXEL_ATLAS_HEIGHT);
    assert_eq!(PIXEL_ATLAS_WIDTH, PIXEL_GLYPH_SIZE);
}

#[test]
fn pixel_font_blank_outside_basic_latin() {
    let atlas = GlyphAtlas::new_pixel();
    let blank = CachedGlyph {
        atlas_x: 0,
        atlas_y: 0,
        placed: false,
        width: 0,
        height: 0,
        bearing_x: 0,
        bearing_y: 0,
        advance: Advance::Pixels(8),
    };
    assert_eq!(atlas.lookup('\u{80}'), GlyphLookup::Blank(blank));
    assert_eq!(atlas.lookup('é'), GlyphLookup::Blank(blank));
    assert!(!blank.is_drawn());
    assert!(pixel_cell(3).is_drawn());
}

#[test]
fn ttf_atlas_starts_empty() {
    let atlas = GlyphAtlas::new_ttf();
    assert!(!atlas.is_pixel_font());
    assert_eq!(atlas.cached_count(), 0);
    assert_eq!(atlas.lookup('a'), GlyphLookup::Uncached);
    assert_eq!(atlas.packer_model(), PackerModel { atlas_size: ATLAS_SIZE, cursor_x: 0, cursor_y: 0, row_height: 0 });
}

#[test]
fn rasterized_glyph_is_cached_where_packed() {
    let mut atlas = GlyphAtlas::new_ttf();
    let a = atlas.insert_rasterized('a', 10, 12, 1, -2, 0x4120_0000);
    let expected_a = CachedGlyph {
        atlas_x: 0,
        atlas_y: 0,
        placed: true,
        width: 10,
        height: 12,
        bearing_x: 1,
        bearing_y: -2,
        advance: Advance::Metric(0x4120_0000),
    };
    assert_eq!(a, expected_a);
    assert_eq!(atlas.lookup('a'), GlyphLookup::Cached(expected_a));
    let b = atlas.insert_rasterized('b', 20, 5, 0, 0, 7);
    assert_eq!((b.atlas_x, b.atlas_y, b.placed), (11, 0, true));
    assert_eq!(atlas.lookup('a'), GlyphLookup::Cached(expected_a));
    assert_eq!(atlas.lookup('b'), GlyphLookup::Cached(b));
    assert_eq!(atlas.cached_count(), 2);
    assert_eq!(atlas.packer_model(), PackerModel { atlas_size: ATLAS_SIZE, cursor_x: 32, cursor_y: 0, row_height: 13 });
}

#[test]
fn glyph_that_does_not_fit_is_not_cached() {
    let mut atlas = GlyphAtlas::new_ttf();
    let g = atlas.insert_rasterized('W', 2000, 5, 3, 4, 99);
    assert_eq!(
        g,
        CachedGlyph {
            atlas_x: 0,
            atlas_y: 0,
            placed: false,
            width: 0,
            height: 0,
            bearing_x: 3,
            bearing_y: 4,
            advance: Advance::Metric(99),
        }
    );
    assert_eq!(atlas.lookup('W'), GlyphLookup::Uncached);
    assert_eq!(atlas.cached_count(), 0);
}

#[test]
fn cached_glyphs_do_not_overlap() {
    let mut atlas = GlyphAtlas::new_ttf();
    let mut glyphs: Vec<CachedGlyph> = Vec::new();
    let mut code: u32 = 0x41;
    for i in 0..200u32 {
        let ch = char::from_u32(code).unwrap();
        let g = atlas.insert_rasterized(ch, 30 + (i * 7) % 50, 40 + (i * 13) % 60, 0, 0, 0);
        if g.placed {
            glyphs.push(g);
        }
        code += 1;
    }
    assert!(glyphs.len() > 50);
    assert_eq!(atlas.cached_count(), glyphs.len());
    for i in 0..glyphs.len() {
        let a = glyphs[i];
        assert!(a.atlas_x + a.width <= ATLAS_SIZE && a.atlas_y + a.height <= ATLAS_SIZE);
        for j in (i + 1)..glyphs.len() {
            let b = glyphs[j];
            let apart = a.atlas_x + a.width <= b.atlas_x
                || b.atlas_x + b.width <= a.atlas_x
                || a.atlas_y + a.height <= b.atlas_y
                || b.atlas_y + b.height <= a.atlas_y;
            assert!(apart);
        }
    }
}

#[test]
fn texture_coordinates_sit_on_texel_centres() {
    assert_eq!(pixel_cell(65).uv_half_texels(), Some([1, 1041, 15, 1055]));
    let mut atlas = GlyphAtlas::new_ttf();
    atlas.insert_rasterized('x', 3, 4, 0, 0, 0);
    let g = atlas.insert_rasterized('y', 0, 0, 0, 0, 0);
    assert_eq!((g.atlas_x, g.placed), (4, true));
    assert_eq!(g.uv_half_texels(), Some([9, 1, 7, -1]));
    let unplaced = atlas.insert_rasterized('z', 5000, 1, 0, 0, 0);
    assert_eq!(unplaced.uv_half_texels(), None);
}

#[test]
fn pixel_atlas_packer_is_untouched() {
    let atlas = GlyphAtlas::new_pixel();
    assert_eq!(atlas.packer_model(), PackerModel { atlas_size: ATLAS_SIZE, cursor_x: 0, cursor_y: 0, row_height: 0 });
}

#[test]
fn second_request_for_a_glyph_changes_nothing() {
    let mut atlas = GlyphAtlas::new_ttf();
    atlas.insert_rasterized('a', 600, 10, 0, 0, 0);
    // Does not fit beside 'a': a new shelf opens, then the glyph is too tall for it.
    let first = atlas.insert_rasterized('b', 500, 1020, 2, 3, 4);
    assert!(!first.placed);
    let after_first = atlas.packer_model();
    assert_eq!(after_first, PackerModel { atlas_size: ATLAS_SIZE, cursor_x: 0, cursor_y: 11, row_height: 0 });
    assert_eq!(atlas.lookup('b'), GlyphLookup::Uncached);
    let second = atlas.insert_rasterized('b', 500, 1020, 2, 3, 4);
    assert_eq!(second, first);
    assert_eq!(atlas.packer_model(), after_first);
    assert_eq!(atlas.cached_count(), 1);
}
