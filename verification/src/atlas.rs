//! Shelf packing of glyph bitmaps into a square atlas.
//!
//! Rectangles are placed left to right on the current shelf; when a rectangle does
//! not fit horizontally, a new shelf is opened below the tallest rectangle of the
//! current one.  Every rectangle is padded by one texel to the right and below.
use vstd::prelude::*;

verus! {

/// Texels of padding kept to the right of and below every packed rectangle.
pub const PACK_PADDING: u32 = 1;

/// The state of a shelf packer as plain numbers: the side of the square atlas, the pen
/// on the current shelf, and the height of the current shelf.
#[derive(Clone, Copy, Debug, PartialEq, Eq)]
pub struct PackerModel {
    pub atlas_size: u32,
    pub cursor_x: u32,
    pub cursor_y: u32,
    pub row_height: u32,
}

/// An axis-aligned rectangle `(x, y, width, height)` in atlas texels.
pub type AtlasRect = (int, int, int, int);

/// The pen stays inside the atlas and the current shelf ends inside the atlas.
pub open spec fn packer_wf(m: PackerModel) -> bool {
    &&& m.cursor_x <= m.atlas_size
    &&& m.cursor_y + m.row_height <= m.atlas_size
}

/// The state right after opening a new shelf below the current one.
pub open spec fn next_shelf(m: PackerModel) -> PackerModel {
    PackerModel {
        atlas_size: m.atlas_size,
        cursor_x: 0,
        cursor_y: (m.cursor_y + m.row_height) as u32,
        row_height: 0,
    }
}

/// One packing request for a `w` x `h` bitmap: the state afterwards and the top-left
/// corner handed out, if any.  A request that does not fit the current shelf opens a
/// new one first, and that shelf stays open even when the request then fails.
pub open spec fn pack_step(m: PackerModel, w: u32, h: u32) -> (PackerModel, Option<(u32, u32)>) {
    let pw = w + PACK_PADDING;
    let ph = h + PACK_PADDING;
    if pw > m.atlas_size || ph > m.atlas_size {
        (m, None)
    } else {
        let s = if m.cursor_x + pw > m.atlas_size { next_shelf(m) } else { m };
        if s.cursor_y + ph > s.atlas_size {
            (s, None)
        } else {
            (
                PackerModel {
                    atlas_size: s.atlas_size,
                    cursor_x: (s.cursor_x + pw) as u32,
                    cursor_y: s.cursor_y,
                    row_height: if s.row_height >= ph { s.row_height } else { ph as u32 },
                },
                Some((s.cursor_x, s.cursor_y)),
            )
        }
    }
}

/// The texels a packed `w` x `h` bitmap reserves at `pos`, padding included.
pub open spec fn padded_rect(pos: (u32, u32), w: u32, h: u32) -> AtlasRect {
    (pos.0 as int, pos.1 as int, w + PACK_PADDING, h + PACK_PADDING)
}

/// Two rectangles share no texel.
pub open spec fn separated(a: AtlasRect, b: AtlasRect) -> bool {
    ||| a.0 + a.2 <= b.0
    ||| b.0 + b.2 <= a.0
    ||| a.1 + a.3 <= b.1
    ||| b.1 + b.3 <= a.1
}

/// The rectangle lies inside the atlas.
pub open spec fn inside_atlas(r: AtlasRect, atlas_size: int) -> bool {
    0 <= r.0 && 0 <= r.1 && r.0 + r.2 <= atlas_size && r.1 + r.3 <= atlas_size
}

/// The rectangle lies in the part of the atlas that the packer has already used up:
/// above the current shelf, or on it and left of the pen.
pub open spec fn settled(r: AtlasRect, m: PackerModel) -> bool {
    ||| r.1 + r.3 <= m.cursor_y
    ||| (r.1 + r.3 <= m.cursor_y + m.row_height && r.0 + r.2 <= m.cursor_x)
}

/// Runs a sequence of packing requests `(w, h)` from state `m`.
pub open spec fn pack_all(m: PackerModel, reqs: Seq<(u32, u32)>) -> (
    PackerModel,
    Seq<Option<(u32, u32)>>,
)
    decreases reqs.len(),
{
    if reqs.len() == 0 {
        (m, Seq::empty())
    } else {
        let (m1, r) = pack_step(m, reqs[0].0, reqs[0].1);
        let (mf, rs) = pack_all(m1, reqs.drop_first());
        (mf, seq![r] + rs)
    }
}

/// One packing step keeps the packer well formed, places its rectangle inside the
/// atlas, away from every rectangle already used up, and every used-up rectangle,
/// the new one included, stays used up.
pub proof fn lemma_pack_step(m: PackerModel, w: u32, h: u32)
    requires
        packer_wf(m),
    ensures
        ({
            let (m2, pos) = pack_step(m, w, h);
            &&& packer_wf(m2)
            &&& m2.atlas_size == m.atlas_size
            &&& forall|r: AtlasRect| #[trigger] settled(r, m) ==> settled(r, m2)
            &&& pos matches Some(p) ==> {
                &&& inside_atlas(padded_rect(p, w, h), m.atlas_size as int)
                &&& settled(padded_rect(p, w, h), m2)
                &&& forall|r: AtlasRect| #[trigger] settled(r, m) ==> separated(r, padded_rect(p, w, h))
            }
        }),
{
}

/// Law: every rectangle handed out by a run of packing requests lies inside the atlas,
/// no two of them share a texel, none of them meets a rectangle that was used up before
/// the run, and whatever was used up stays used up.
pub proof fn lemma_pack_all_disjoint(m: PackerModel, reqs: Seq<(u32, u32)>)
    requires
        packer_wf(m),
    ensures
        ({
            let (mf, rs) = pack_all(m, reqs);
            &&& packer_wf(mf)
            &&& mf.atlas_size == m.atlas_size
            &&& rs.len() == reqs.len()
            &&& forall|r: AtlasRect| #[trigger] settled(r, m) ==> settled(r, mf)
            &&& forall|i: int|
                0 <= i < rs.len() && (#[trigger] rs[i]) is Some ==> {
                    let ri = padded_rect(rs[i]->0, reqs[i].0, reqs[i].1);
                    &&& inside_atlas(ri, m.atlas_size as int)
                    &&& settled(ri, mf)
                    &&& forall|r: AtlasRect| #[trigger] settled(r, m) ==> separated(r, ri)
                }
            &&& forall|i: int, j: int|
                0 <= i < j < rs.len() && (#[trigger] rs[i]) is Some && (#[trigger] rs[j]) is Some
                    ==> separated(
                    padded_rect(rs[i]->0, reqs[i].0, reqs[i].1),
                    padded_rect(rs[j]->0, reqs[j].0, reqs[j].1),
                )
        }),
    decreases reqs.len(),
{
    if reqs.len() > 0 {
        let (m1, r0) = pack_step(m, reqs[0].0, reqs[0].1);
        lemma_pack_step(m, reqs[0].0, reqs[0].1);
        let tail = reqs.drop_first();
        lemma_pack_all_disjoint(m1, tail);
        let (mf, rs1) = pack_all(m1, tail);
        let rs = seq![r0] + rs1;
        assert(pack_all(m, reqs) == (mf, rs));
        assert forall|i: int|
            0 <= i < rs.len() && (#[trigger] rs[i]) is Some implies {
                let ri = padded_rect(rs[i]->0, reqs[i].0, reqs[i].1);
                &&& inside_atlas(ri, m.atlas_size as int)
                &&& settled(ri, mf)
                &&& forall|r: AtlasRect| #[trigger] settled(r, m) ==> separated(r, ri)
            } by {
            if i > 0 {
                assert(rs[i] == rs1[i - 1]);
                assert(reqs[i] == tail[i - 1]);
                assert(rs1[i - 1] is Some);
            }
        }
        assert forall|i: int, j: int|
            0 <= i < j < rs.len() && (#[trigger] rs[i]) is Some && (#[trigger] rs[j]) is Some
                implies separated(
                padded_rect(rs[i]->0, reqs[i].0, reqs[i].1),
                padded_rect(rs[j]->0, reqs[j].0, reqs[j].1),
            ) by {
            assert(rs[j] == rs1[j - 1]);
            assert(reqs[j] == tail[j - 1]);
            assert(rs1[j - 1] is Some);
            if i > 0 {
                assert(rs[i] == rs1[i - 1]);
                assert(reqs[i] == tail[i - 1]);
                assert(rs1[i - 1] is Some);
            } else {
                let r0p = padded_rect(rs[0]->0, reqs[0].0, reqs[0].1);
                assert(settled(r0p, m1));
                let rj = padded_rect(rs1[j - 1]->0, tail[j - 1].0, tail[j - 1].1);
                assert(separated(r0p, rj));
            }
        }
    }
}

/// Law: what one packing request does, case by case.  A padded bitmap that fits at the
/// pen is placed at the pen, and the pen moves past it on the same shelf, whose height
/// grows to hold it.  One that fits beside the pen but is too tall for what is left is
/// refused and changes nothing.  One larger than the atlas is refused and changes
/// nothing.  One too wide for the rest of the shelf opens a new shelf below the
/// current one and goes at its left end if it is not too tall for what is left there;
/// if it is, it is refused and the new shelf stays open.
pub proof fn lemma_pack_cases(m: PackerModel, w: u32, h: u32)
    requires
        packer_wf(m),
    ensures
        ({
            let (m2, pos) = pack_step(m, w, h);
            let pw = w + 1;
            let ph = h + 1;
            let a = m.atlas_size;
            &&& m2.atlas_size == a
            &&& (m.cursor_x + pw <= a && m.cursor_y + ph <= a) ==> {
                &&& pos == Some((m.cursor_x, m.cursor_y))
                &&& m2.cursor_x == m.cursor_x + pw
                &&& m2.cursor_y == m.cursor_y
                &&& m2.row_height == (if m.row_height >= ph { m.row_height as int } else { ph })
            }
            &&& (m.cursor_x + pw <= a && m.cursor_y + ph > a) ==> pos is None && m2 == m
            &&& (pw > a || ph > a) ==> pos is None && m2 == m
            &&& (pw <= a && ph <= a && m.cursor_x + pw > a) ==> {
                &&& m2.cursor_y == m.cursor_y + m.row_height
                &&& if m.cursor_y + m.row_height + ph <= a {
                    &&& pos == Some((0u32, (m.cursor_y + m.row_height) as u32))
                    &&& m2.cursor_x == pw
                    &&& m2.row_height == ph
                } else {
                    &&& pos is None
                    &&& m2.cursor_x == 0
                    &&& m2.row_height == 0
                }
            }
        }),
{
}

/// A shelf packer for a square atlas.
pub struct ShelfPacker {
    atlas_size: u32,
    cursor_x: u32,
    cursor_y: u32,
    row_height: u32,
}

impl View for ShelfPacker {
    type V = PackerModel;

    closed spec fn view(&self) -> PackerModel {
        PackerModel {
            atlas_size: self.atlas_size,
            cursor_x: self.cursor_x,
            cursor_y: self.cursor_y,
            row_height: self.row_height,
        }
    }
}

impl ShelfPacker {
    /// An empty packer for an `atlas_size` x `atlas_size` atlas.
    pub fn new(atlas_size: u32) -> (p: Self)
        ensures
            p@ == (PackerModel { atlas_size, cursor_x: 0, cursor_y: 0, row_height: 0 }),
            packer_wf(p@),
    {
        ShelfPacker { atlas_size, cursor_x: 0, cursor_y: 0, row_height: 0 }
    }

    /// The current state as plain numbers.
    pub fn model(&self) -> (m: PackerModel)
        ensures
            m == self@,
    {
        PackerModel {
            atlas_size: self.atlas_size,
            cursor_x: self.cursor_x,
            cursor_y: self.cursor_y,
            row_height: self.row_height,
        }
    }

    /// Reserves room for a `w` x `h` bitmap and returns its top-left corner, or `None`
    /// when the bitmap does not fit in what is left of the atlas.
    pub fn pack(&mut self, w: u32, h: u32) -> (pos: Option<(u32, u32)>)
        requires
            packer_wf(old(self)@),
            w < u32::MAX,
            h < u32::MAX,
        ensures
            (final(self)@, pos) == pack_step(old(self)@, w, h),
            packer_wf(final(self)@),
            old(self)@.cursor_x + w + 1 <= old(self)@.atlas_size && old(self)@.cursor_y + h + 1
                <= old(self)@.atlas_size ==> pos == Some((old(self)@.cursor_x, old(self)@.cursor_y)),
            old(self)@.cursor_x + w + 1 <= old(self)@.atlas_size && old(self)@.cursor_y + h + 1
                > old(self)@.atlas_size ==> pos is None && final(self)@ == old(self)@,
    {
        proof {
            lemma_pack_step(self@, w, h);
            lemma_pack_cases(self@, w, h);
        }
        let pad = PACK_PADDING;
        let w = w + pad;
        let h = h + pad;
        if w > self.atlas_size || h > self.atlas_size {
            return None;
        }
        if self.cursor_x as u64 + w as u64 > self.atlas_size as u64 {
            self.cursor_x = 0;
            self.cursor_y = self.cursor_y + self.row_height;
            self.row_height = 0;
        }
        if self.cursor_y as u64 + h as u64 > self.atlas_size as u64 {
            return None;
        }
        let pos = (self.cursor_x, self.cursor_y);
        self.cursor_x = self.cursor_x + w;
        if h > self.row_height {
            self.row_height = h;
        }
        Some(pos)
    }
}

} // verus!
