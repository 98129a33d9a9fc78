use wgpu_triangle::glyphs::{Advance, CachedGlyph};
use wgpu_triangle::ttf::{plan_for_index, FontError, RasterPlan, TtfFace};

fn missing() -> CachedGlyph {
    CachedGlyph {
        atlas_x: 0,
        atlas_y: 0,
        placed: false,
        width: 0,
        height: 0,
        bearing_x: 0,
        bearing_y: 0,
        advance: Advance::HalfEm,
    }
}

fn be16(out: &mut Vec<u8>, v: u16) {
    out.extend_from_slice(&v.to_be_bytes());
}

fn be32(out: &mut Vec<u8>, v: u32) {
    out.extend_from_slice(&v.to_be_bytes());
}

/// A minimal font with two glyphs, whose cmap maps only 'A' to glyph 1.
fn tiny_font() -> Vec<u8> {
    let mut cmap = Vec::new();
    be16(&mut cmap, 0);
    be16(&mut cmap, 1);
    be16(&mut cmap, 3);
    be16(&mut cmap, 1);
    be32(&mut cmap, 12);
    be16(&mut cmap, 6);
    be16(&mut cmap, 12);
    be16(&mut cmap, 0);
    be16(&mut cmap, 65);
    be16(&mut cmap, 1);
    be16(&mut cmap, 1);
    let mut head = Vec::new();
    be32(&mut head, 0x0001_0000);
    be32(&mut head, 0);
    be32(&mut head, 0);
    be32(&mut head, 0x5F0F_3CF5);
    be16(&mut head, 0);
    be16(&mut head, 1000);
    head.extend_from_slice(&[0u8; 16]);
    head.extend_from_slice(&[0u8; 8]);
    be16(&mut head, 0);
    be16(&mut head, 0);
    be16(&mut head, 0);
    be16(&mut head, 0);
    be16(&mut head, 0);
    assert_eq!(head.len(), 54);
    let mut hhea = vec![0u8; 36];
    hhea[1] = 1;
    let mut maxp = Vec::new();
    be32(&mut maxp, 0x0000_5000);
    be16(&mut maxp, 2);
    let tables: Vec<(&[u8; 4], Vec<u8>)> = vec![(b"cmap", cmap), (b"head", head), (b"hhea", hhea), (b"maxp", maxp)];
    let mut out = Vec::new();
    be32(&mut out, 0x0001_0000);
    be16(&mut out, tables.len() as u16);
    be16(&mut out, 64);
    be16(&mut out, 2);
    be16(&mut out, 0);
    let mut offset = 12 + 16 * tables.len();
    let mut body = Vec::new();
    for (tag, data) in &tables {
        out.extend_from_slice(&tag[..]);
        be32(&mut out, 0);
        be32(&mut out, offset as u32);
        be32(&mut out, data.len() as u32);
        let mut padded = data.clone();
        while padded.len() % 4 != 0 {
            padded.push(0);
        }
        offset += padded.len();
        body.extend_from_slice(&padded);
    }
    out.extend_from_slice(&body);
    out
}

#[test]
fn index_zero_means_missing() {
    assert_eq!(plan_for_index(0), RasterPlan::Missing(missing()));
    assert_eq!(plan_for_index(1), RasterPlan::Rasterize);
    assert_eq!(plan_for_index(u16::MAX), RasterPlan::Rasterize);
}

#[test]
fn garbage_is_refused_with_fontdue_message() {
    let bytes: &[u8] = b"this is not a font file at all";
    let expected = fontdue::Font::from_bytes(bytes, fontdue::FontSettings::default()).err().unwrap();
    match TtfFace::parse(bytes) {
        Err(FontError::Parse(msg)) => assert_eq!(msg, expected),
        Ok(_) => panic!("garbage parsed as a font"),
    }
}

#[test]
fn tiny_font_plans_by_cmap() {
    let bytes = tiny_font();
    let face = match TtfFace::parse(&bytes) {
        Ok(face) => face,
        Err(e) => panic!("tiny font refused: {:?}", e),
    };
    assert_eq!(face.rasterizer().lookup_glyph_index('A'), 1);
    assert_eq!(face.plan('A'), RasterPlan::Rasterize);
    assert_eq!(face.plan('B'), RasterPlan::Missing(missing()));
}
