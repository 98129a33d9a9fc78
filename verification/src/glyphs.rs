//! The glyph cache of a font atlas.
//!
//! A TrueType atlas starts empty and caches each glyph the first time it is
//! rasterized, at the place the shelf packer hands out.  The built-in pixel font
//! atlas holds the 128 Basic Latin glyphs from the start, one 8x8 cell per code
//! point, stacked in an 8-texel-wide column.
use std::collections::HashMap;
use vstd::prelude::*;
use crate::ttf::RasterPlan;
use crate::atlas::{
    lemma_pack_step, pack_step, packer_wf, padded_rect, inside_atlas, separated, settled,
    AtlasRect, PackerModel, ShelfPacker,
};

verus! {

broadcast use vstd::std_specs::hash::group_hash_axioms;

/// Side of the square atlas of a TrueType font, in texels.
pub const ATLAS_SIZE: u32 = 1024;

/// Side of one glyph cell of the pixel font.
pub const PIXEL_GLYPH_SIZE: u32 = 8;

/// Number of glyphs of the pixel font (Basic Latin, U+0000 to U+007F).
pub const PIXEL_GLYPH_COUNT: u32 = 128;

/// Width of the pixel font atlas texture: one glyph cell.
pub const PIXEL_ATLAS_WIDTH: u32 = 8;

/// Height of the pixel font atlas texture: all glyph cells stacked.
pub const PIXEL_ATLAS_HEIGHT: u32 = 1024;

/// How far the pen moves after a glyph.
#[derive(Clone, Copy, Debug, PartialEq, Eq, Structural)]
pub enum Advance {
    /// A whole number of font pixels.
    Pixels(u32),
    /// The rasterizer's advance width, carried as the bit pattern of its `f32`.
    Metric(u32),
    /// Half of the font's pixels-per-em (a character the font has no glyph for).
    HalfEm,
}

/// A glyph as the text renderer needs it: where its bitmap sits in the atlas (when it
/// sits there at all), its size, its bearing from the pen position and its advance.
#[derive(Clone, Copy, Debug, PartialEq, Eq, Structural)]
pub struct CachedGlyph {
    pub atlas_x: u32,
    pub atlas_y: u32,
    pub placed: bool,
    pub width: u32,
    pub height: u32,
    pub bearing_x: i32,
    pub bearing_y: i32,
    pub advance: Advance,
}

/// What the cache knows of a character before any rasterizing.
#[derive(Clone, Copy, Debug, PartialEq, Eq, Structural)]
pub enum GlyphLookup {
    /// The glyph is in the cache.
    Cached(CachedGlyph),
    /// The pixel font has no glyph for the character: an empty cell that still advances.
    Blank(CachedGlyph),
    /// A TrueType font has not rasterized the character yet.
    Uncached,
}

/// The cache key of a character: its code point.
pub open spec fn char_key(ch: char) -> u32 {
    ch as u32
}

/// The pixel font glyph of code point `code`: the 8x8 cell at row `8 * code`.
pub open spec fn pixel_glyph(code: u32) -> CachedGlyph {
    CachedGlyph {
        atlas_x: 0,
        atlas_y: (code * PIXEL_GLYPH_SIZE) as u32,
        placed: true,
        width: PIXEL_GLYPH_SIZE,
        height: PIXEL_GLYPH_SIZE,
        bearing_x: 0,
        bearing_y: PIXEL_GLYPH_SIZE as i32,
        advance: Advance::Pixels(PIXEL_GLYPH_SIZE),
    }
}

/// The whole cache of the pixel font.
pub open spec fn pixel_cache() -> Map<u32, CachedGlyph> {
    Map::new(|code: u32| code < PIXEL_GLYPH_COUNT, |code: u32| pixel_glyph(code))
}

/// What the pixel font draws for a character outside Basic Latin.
pub open spec fn blank_pixel_glyph() -> CachedGlyph {
    CachedGlyph {
        atlas_x: 0,
        atlas_y: 0,
        placed: false,
        width: 0,
        height: 0,
        bearing_x: 0,
        bearing_y: 0,
        advance: Advance::Pixels(PIXEL_GLYPH_SIZE),
    }
}

/// What a TrueType font draws for a character it has no glyph for.
pub open spec fn missing_glyph() -> CachedGlyph {
    CachedGlyph {
        atlas_x: 0,
        atlas_y: 0,
        placed: false,
        width: 0,
        height: 0,
        bearing_x: 0,
        bearing_y: 0,
        advance: Advance::HalfEm,
    }
}

/// A rasterized glyph placed at `pos` in the atlas.
pub open spec fn placed_glyph(
    pos: (u32, u32),
    width: u32,
    height: u32,
    xmin: i32,
    ymin: i32,
    advance_bits: u32,
) -> CachedGlyph {
    CachedGlyph {
        atlas_x: pos.0,
        atlas_y: pos.1,
        placed: true,
        width,
        height,
        bearing_x: xmin,
        bearing_y: ymin,
        advance: Advance::Metric(advance_bits),
    }
}

/// A rasterized glyph for which the atlas had no room: nothing is drawn, the pen
/// still advances.
pub open spec fn unplaced_glyph(xmin: i32, ymin: i32, advance_bits: u32) -> CachedGlyph {
    CachedGlyph {
        atlas_x: 0,
        atlas_y: 0,
        placed: false,
        width: 0,
        height: 0,
        bearing_x: xmin,
        bearing_y: ymin,
        advance: Advance::Metric(advance_bits),
    }
}

/// The texels a glyph of a TrueType atlas reserves, padding included.
pub open spec fn glyph_footprint(g: CachedGlyph) -> AtlasRect {
    padded_rect((g.atlas_x, g.atlas_y), g.width, g.height)
}

/// The texels a glyph's bitmap covers.
pub open spec fn glyph_rect(g: CachedGlyph) -> AtlasRect {
    (g.atlas_x as int, g.atlas_y as int, g.width as int, g.height as int)
}

/// What `lookup` answers for a character, given the cache and the kind of font.
pub open spec fn lookup_spec(cache: Map<u32, CachedGlyph>, is_pixel_font: bool, ch: char) -> GlyphLookup {
    if cache.contains_key(char_key(ch)) {
        GlyphLookup::Cached(cache[char_key(ch)])
    } else if is_pixel_font {
        GlyphLookup::Blank(blank_pixel_glyph())
    } else {
        GlyphLookup::Uncached
    }
}

/// What is known of every cached glyph of a TrueType atlas with packer state `p`:
/// it is placed, inside the atlas, and in the part the packer has used up.
pub open spec fn ttf_glyph_ok(g: CachedGlyph, p: PackerModel) -> bool {
    &&& g.placed
    &&& inside_atlas(glyph_footprint(g), p.atlas_size as int)
    &&& settled(glyph_footprint(g), p)
}

/// The font atlas state without its GPU texture: the glyph cache, the kind of font,
/// and the shelf packer for rasterized glyphs.
pub struct GlyphAtlas {
    glyph_cache: HashMap<u32, CachedGlyph>,
    is_pixel_font: bool,
    packer: ShelfPacker,
}

impl GlyphAtlas {
    /// The cached glyphs, by code point.
    pub closed spec fn cache(&self) -> Map<u32, CachedGlyph> {
        self.glyph_cache@
    }

    /// Whether this is the built-in pixel font.
    pub closed spec fn pixel_font(&self) -> bool {
        self.is_pixel_font
    }

    /// The packer's state.
    pub closed spec fn packer_state(&self) -> PackerModel {
        self.packer@
    }

    /// The atlas invariant.  The pixel font holds exactly its 128 cells; a TrueType
    /// atlas holds only placed glyphs, inside the atlas, used up by the packer, and no
    /// two of them share a texel.
    pub closed spec fn wf(&self) -> bool {
        &&& packer_wf(self.packer@)
        &&& self.packer@.atlas_size == ATLAS_SIZE
        &&& self.is_pixel_font ==> self.glyph_cache@ == pixel_cache()
        &&& !self.is_pixel_font ==> {
            &&& forall|k: u32| #[trigger]
                self.glyph_cache@.contains_key(k) ==> ttf_glyph_ok(self.glyph_cache@[k], self.packer@)
            &&& forall|k1: u32, k2: u32|
                #[trigger] self.glyph_cache@.contains_key(k1) && #[trigger] self.glyph_cache@.contains_key(k2)
                    && k1 != k2 ==> separated(
                    glyph_footprint(self.glyph_cache@[k1]),
                    glyph_footprint(self.glyph_cache@[k2]),
                )
        }
    }

    /// An empty atlas for a TrueType font.
    pub fn new_ttf() -> (a: Self)
        ensures
            a.wf(),
            !a.pixel_font(),
            a.cache() == Map::<u32, CachedGlyph>::empty(),
            a.packer_state() == (PackerModel { atlas_size: ATLAS_SIZE, cursor_x: 0, cursor_y: 0, row_height: 0 }),
    {
        GlyphAtlas {
            glyph_cache: HashMap::new(),
            is_pixel_font: false,
            packer: ShelfPacker::new(ATLAS_SIZE),
        }
    }

    /// The atlas of the built-in pixel font, with all 128 glyph cells cached.
    pub fn new_pixel() -> (a: Self)
        ensures
            a.wf(),
            a.pixel_font(),
            a.cache() == pixel_cache(),
            a.packer_state() == (PackerModel { atlas_size: ATLAS_SIZE, cursor_x: 0, cursor_y: 0, row_height: 0 }),
    {
        let mut glyph_cache: HashMap<u32, CachedGlyph> = HashMap::new();
        let mut code: u32 = 0;
        while code < PIXEL_GLYPH_COUNT
            invariant
                code <= PIXEL_GLYPH_COUNT,
                glyph_cache@ == Map::new(|c: u32| c < code, |c: u32| pixel_glyph(c)),
            decreases PIXEL_GLYPH_COUNT - code,
        {
            let glyph = CachedGlyph {
                atlas_x: 0,
                atlas_y: code * PIXEL_GLYPH_SIZE,
                placed: true,
                width: PIXEL_GLYPH_SIZE,
                height: PIXEL_GLYPH_SIZE,
                bearing_x: 0,
                bearing_y: 8,
                advance: Advance::Pixels(PIXEL_GLYPH_SIZE),
            };
            glyph_cache.insert(code, glyph);
            code = code + 1;
            assert(glyph_cache@ =~= Map::new(|c: u32| c < code, |c: u32| pixel_glyph(c)));
        }
        assert(glyph_cache@ =~= pixel_cache());
        GlyphAtlas { glyph_cache, is_pixel_font: true, packer: ShelfPacker::new(ATLAS_SIZE) }
    }

    /// Whether this is the built-in pixel font.
    pub fn is_pixel_font(&self) -> (b: bool)
        ensures
            b == self.pixel_font(),
    {
        self.is_pixel_font
    }

    /// The packer's state.
    pub fn packer_model(&self) -> (m: PackerModel)
        ensures
            m == self.packer_state(),
    {
        self.packer.model()
    }

    /// The number of cached glyphs.
    pub fn cached_count(&self) -> (n: usize)
        ensures
            n == self.cache().len(),
    {
        self.glyph_cache.len()
    }

    /// Looks a character up in the cache.
    pub fn lookup(&self, ch: char) -> (r: GlyphLookup)
        ensures
            r == lookup_spec(self.cache(), self.pixel_font(), ch),
    {
        let code = ch as u32;
        match self.glyph_cache.get(&code) {
            Some(g) => GlyphLookup::Cached(*g),
            None => {
                if self.is_pixel_font {
                    GlyphLookup::Blank(CachedGlyph {
                        atlas_x: 0,
                        atlas_y: 0,
                        placed: false,
                        width: 0,
                        height: 0,
                        bearing_x: 0,
                        bearing_y: 0,
                        advance: Advance::Pixels(PIXEL_GLYPH_SIZE),
                    })
                } else {
                    GlyphLookup::Uncached
                }
            },
        }
    }
    /// Takes a freshly rasterized `width` x `height` bitmap of `ch` (with the
    /// rasterizer's bearing `xmin`, `ymin` and advance) into a TrueType atlas.  When the
    /// packer finds room, the glyph is placed there and cached; when it does not, the
    /// glyph is returned unplaced and not cached.
    pub fn insert_rasterized(
        &mut self,
        ch: char,
        width: u32,
        height: u32,
        xmin: i32,
        ymin: i32,
        advance_bits: u32,
    ) -> (g: CachedGlyph)
        requires
            old(self).wf(),
            !old(self).pixel_font(),
            width < u32::MAX,
            height < u32::MAX,
        ensures
            final(self).wf(),
            !final(self).pixel_font(),
            ({
                let (p2, pos) = pack_step(old(self).packer_state(), width, height);
                &&& final(self).packer_state() == p2
                &&& match pos {
                    Some(p) => {
                        &&& g == placed_glyph(p, width, height, xmin, ymin, advance_bits)
                        &&& final(self).cache() == old(self).cache().insert(char_key(ch), g)
                    },
                    None => {
                        &&& g == unplaced_glyph(xmin, ymin, advance_bits)
                        &&& final(self).cache() == old(self).cache()
                    },
                }
            }),
    {
        let ghost old_cache = self.glyph_cache@;
        let ghost old_packer = self.packer@;
        proof {
            lemma_pack_step(old_packer, width, height);
        }
        match self.packer.pack(width, height) {
            None => CachedGlyph {
                atlas_x: 0,
                atlas_y: 0,
                placed: false,
                width: 0,
                height: 0,
                bearing_x: xmin,
                bearing_y: ymin,
                advance: Advance::Metric(advance_bits),
            },
            Some((gx, gy)) => {
                let glyph = CachedGlyph {
                    atlas_x: gx,
                    atlas_y: gy,
                    placed: true,
                    width,
                    height,
                    bearing_x: xmin,
                    bearing_y: ymin,
                    advance: Advance::Metric(advance_bits),
                };
                let code = ch as u32;
                self.glyph_cache.insert(code, glyph);
                proof {
                    let new_packer = self.packer@;
                    let fp = glyph_footprint(glyph);
                    assert(fp == padded_rect((gx, gy), width, height));
                    assert forall|k: u32| #[trigger]
                        self.glyph_cache@.contains_key(k) implies ttf_glyph_ok(self.glyph_cache@[k], new_packer) by {
                        if k != code {
                            assert(old_cache.contains_key(k));
                            assert(settled(glyph_footprint(old_cache[k]), old_packer));
                        }
                    }
                    assert forall|k1: u32, k2: u32|
                        #[trigger] self.glyph_cache@.contains_key(k1) && #[trigger] self.glyph_cache@.contains_key(k2)
                            && k1 != k2 implies separated(
                            glyph_footprint(self.glyph_cache@[k1]),
                            glyph_footprint(self.glyph_cache@[k2]),
                        ) by {
                        if k1 == code {
                            assert(settled(glyph_footprint(old_cache[k2]), old_packer));
                        } else if k2 == code {
                            assert(settled(glyph_footprint(old_cache[k1]), old_packer));
                        } else {
                            assert(old_cache.contains_key(k1) && old_cache.contains_key(k2));
                        }
                    }
                }
                glyph
            },
        }
    }
}

impl CachedGlyph {
    /// Whether the glyph puts any texel on screen: its bitmap is neither zero wide nor
    /// zero tall.
    pub fn is_drawn(&self) -> (b: bool)
        ensures
            b == (self.width > 0 && self.height > 0),
    {
        self.width > 0 && self.height > 0
    }

    /// Texture coordinates of the glyph's corner texel centres, in half texels:
    /// `[2x + 1, 2y + 1, 2(x + w) - 1, 2(y + h) - 1]`, to be divided by twice the atlas
    /// width (first and third) and height (second and fourth).  A glyph with no place
    /// in the atlas has none.
    pub fn uv_half_texels(&self) -> (uv: Option<[i64; 4]>)
        ensures
            self.placed ==> (uv matches Some(c) && {
                &&& c[0] == 2 * self.atlas_x + 1
                &&& c[1] == 2 * self.atlas_y + 1
                &&& c[2] == 2 * (self.atlas_x + self.width) - 1
                &&& c[3] == 2 * (self.atlas_y + self.height) - 1
            }),
            !self.placed ==> uv is None,
    {
        if self.placed {
            let x = self.atlas_x as i64;
            let y = self.atlas_y as i64;
            let w = self.width as i64;
            let h = self.height as i64;
            Some([2 * x + 1, 2 * y + 1, 2 * (x + w) - 1, 2 * (y + h) - 1])
        } else {
            None
        }
    }
}

/// Width of the atlas texture of a pixel font or of a TrueType font.
pub open spec fn atlas_width(is_pixel_font: bool) -> int {
    if is_pixel_font { PIXEL_ATLAS_WIDTH as int } else { ATLAS_SIZE as int }
}

/// Height of the atlas texture of a pixel font or of a TrueType font.
pub open spec fn atlas_height(is_pixel_font: bool) -> int {
    if is_pixel_font { PIXEL_ATLAS_HEIGHT as int } else { ATLAS_SIZE as int }
}

/// The rectangle lies inside a `w` x `h` texture.
pub open spec fn inside_texture(r: AtlasRect, w: int, h: int) -> bool {
    0 <= r.0 && 0 <= r.1 && r.0 + r.2 <= w && r.1 + r.3 <= h
}

/// Law: every glyph an atlas has cached has its place in the atlas; the bitmaps lie
/// inside its texture and no two of them share a texel, so drawing one glyph never
/// shows part of another.
pub proof fn lemma_cached_glyphs_disjoint(atlas: GlyphAtlas)
    requires
        atlas.wf(),
    ensures
        forall|k: u32| #[trigger] atlas.cache().contains_key(k) ==> atlas.cache()[k].placed,
        forall|k: u32| #[trigger] atlas.cache().contains_key(k) ==> inside_texture(
            glyph_rect(atlas.cache()[k]),
            atlas_width(atlas.pixel_font()),
            atlas_height(atlas.pixel_font()),
        ),
        forall|k1: u32, k2: u32|
            #[trigger] atlas.cache().contains_key(k1) && #[trigger] atlas.cache().contains_key(k2) && k1
                != k2 ==> separated(glyph_rect(atlas.cache()[k1]), glyph_rect(atlas.cache()[k2])),
{
    let c = atlas.cache();
    if atlas.pixel_font() {
        assert forall|k1: u32, k2: u32|
            #[trigger] c.contains_key(k1) && #[trigger] c.contains_key(k2) && k1 != k2
                implies separated(glyph_rect(c[k1]), glyph_rect(c[k2])) by {
            assert(c[k1] == pixel_glyph(k1));
            assert(c[k2] == pixel_glyph(k2));
        }
    } else {
        assert forall|k1: u32, k2: u32|
            #[trigger] c.contains_key(k1) && #[trigger] c.contains_key(k2) && k1 != k2
                implies separated(glyph_rect(c[k1]), glyph_rect(c[k2])) by {
            assert(separated(glyph_footprint(c[k1]), glyph_footprint(c[k2])));
        }
        assert forall|k: u32| #[trigger] c.contains_key(k) implies inside_texture(
            glyph_rect(c[k]),
            atlas_width(false),
            atlas_height(false),
        ) by {
            assert(ttf_glyph_ok(c[k], atlas.packer_state()));
        }
    }
}

/// Law: once a glyph is taken into the cache for `ch`, looking `ch` up gives exactly
/// that glyph, and looking up any other character gives what it gave before.
pub proof fn lemma_lookup_after_insert(
    cache: Map<u32, CachedGlyph>,
    is_pixel_font: bool,
    ch: char,
    g: CachedGlyph,
    other: char,
)
    ensures
        lookup_spec(cache.insert(char_key(ch), g), is_pixel_font, ch) == GlyphLookup::Cached(g),
        other != ch ==> lookup_spec(cache.insert(char_key(ch), g), is_pixel_font, other)
            == lookup_spec(cache, is_pixel_font, other),
{
}

/// Law: the pixel font answers every Basic Latin character with its 8x8 cell and every
/// other character with an empty cell that advances the pen by 8 pixels.
pub proof fn lemma_pixel_lookup(ch: char)
    ensures
        (ch as u32) < PIXEL_GLYPH_COUNT ==> lookup_spec(pixel_cache(), true, ch) == GlyphLookup::Cached(
            pixel_glyph(ch as u32),
        ),
        (ch as u32) >= PIXEL_GLYPH_COUNT ==> lookup_spec(pixel_cache(), true, ch) == GlyphLookup::Blank(
            blank_pixel_glyph(),
        ),
{
}

/// One request for the glyph of `ch`, as a font serves it: the cached glyph where there
/// is one; the pixel font's blank cell; under a TrueType font's `plan` for `ch`, its
/// missing glyph, or the rasterized `width` x `height` bitmap (bearing `xmin`, `ymin`,
/// advance `advance_bits`) taken into the atlas.  Gives the glyph, and the cache and
/// packer state afterwards: `lookup`, then `TtfFace::plan`, then `insert_rasterized`.
pub open spec fn glyph_request(
    cache: Map<u32, CachedGlyph>,
    is_pixel_font: bool,
    packer: PackerModel,
    ch: char,
    plan: RasterPlan,
    width: u32,
    height: u32,
    xmin: i32,
    ymin: i32,
    advance_bits: u32,
) -> (CachedGlyph, Map<u32, CachedGlyph>, PackerModel) {
    match lookup_spec(cache, is_pixel_font, ch) {
        GlyphLookup::Cached(g) => (g, cache, packer),
        GlyphLookup::Blank(g) => (g, cache, packer),
        GlyphLookup::Uncached => match plan {
            RasterPlan::Missing(g) => (g, cache, packer),
            RasterPlan::Rasterize => {
                let (p2, pos) = pack_step(packer, width, height);
                match pos {
                    Some(p) => {
                        let g = placed_glyph(p, width, height, xmin, ymin, advance_bits);
                        (g, cache.insert(char_key(ch), g), p2)
                    },
                    None => (unplaced_glyph(xmin, ymin, advance_bits), cache, p2),
                }
            },
        },
    }
}

/// Law: asking for the glyph of a character a second time gives the very same glyph
/// and changes nothing; a glyph already cached comes back as stored, with no change
/// at all; and one request keeps every cached glyph as it was, adds at most the
/// requested character, and keeps the atlas size.
pub proof fn lemma_glyph_request(
    cache: Map<u32, CachedGlyph>,
    is_pixel_font: bool,
    packer: PackerModel,
    ch: char,
    plan: RasterPlan,
    width: u32,
    height: u32,
    xmin: i32,
    ymin: i32,
    advance_bits: u32,
)
    ensures
        ({
            let (g1, c1, p1) = glyph_request(
                cache, is_pixel_font, packer, ch, plan, width, height, xmin, ymin, advance_bits);
            let (g2, c2, p2) = glyph_request(
                c1, is_pixel_font, p1, ch, plan, width, height, xmin, ymin, advance_bits);
            &&& g2 == g1
            &&& c2 == c1
            &&& p2 == p1
            &&& cache.contains_key(char_key(ch)) ==> g1 == cache[char_key(ch)] && c1 == cache && p1 == packer
            &&& forall|k: u32| #[trigger] cache.contains_key(k) ==> c1.contains_key(k) && c1[k] == cache[k]
            &&& forall|k: u32| #[trigger] c1.contains_key(k) ==> cache.contains_key(k) || k == char_key(ch)
            &&& p1.atlas_size == packer.atlas_size
        }),
{
    let (g1, c1, p1) = glyph_request(
        cache, is_pixel_font, packer, ch, plan, width, height, xmin, ymin, advance_bits);
    if !cache.contains_key(char_key(ch)) && !is_pixel_font {
        if plan == RasterPlan::Rasterize {
            let (p2, pos) = pack_step(packer, width, height);
            if pos is None {
                assert(pack_step(p1, width, height) == (p1, None::<(u32, u32)>));
            }
        }
    }
}

} // verus!
