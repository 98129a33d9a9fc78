//! The per-frame text vertex buffer, as byte bookkeeping.
//!
//! All text drawn in one frame shares one GPU vertex buffer.  Each draw gets a region
//! of its own right after the previous draw's, so that no draw overwrites the vertices
//! of an earlier one; when a draw does not fit, the buffer is replaced by one whose
//! size is the next power of two that holds everything drawn so far in the frame.
use vstd::prelude::*;

verus! {

/// Bytes per text vertex: a clip-space position and an atlas coordinate, two `f32` each.
pub const TEXT_VERTEX_STRIDE: u64 = 16;

/// Vertices per glyph quad: two triangles.
pub const QUAD_VERTICES: u64 = 6;

/// Size of the vertex buffer before any growth: room for 1024 vertices.
pub const INITIAL_VERTEX_CAPACITY_BYTES: u64 = 1024 * TEXT_VERTEX_STRIDE;

/// Largest total a frame may reserve: beyond it the next power of two does not fit
/// in 64 bits.
pub const MAX_FRAME_BYTES: u64 = 0x8000_0000_0000_0000;

/// `n` is a power of two.
pub open spec fn is_power_of_two(n: nat) -> bool
    decreases n,
{
    if n == 0 {
        false
    } else if n == 1 {
        true
    } else {
        n % 2 == 0 && is_power_of_two(n / 2)
    }
}

/// The smallest power of two that is at least `n` (1 for 0 and 1).
pub open spec fn next_power_of_two(n: nat) -> nat
    decreases n,
{
    if n <= 1 {
        1
    } else {
        2 * next_power_of_two(((n + 1) / 2) as nat)
    }
}

/// `next_power_of_two(n)` is a power of two, at least `n`, and below `2n` for `n >= 1`:
/// the smallest power of two that holds `n`.
pub proof fn lemma_next_power_of_two(n: nat)
    ensures
        is_power_of_two(next_power_of_two(n)),
        n <= next_power_of_two(n),
        n >= 1 ==> next_power_of_two(n) < 2 * n,
    decreases n,
{
    if n > 1 {
        let h = ((n + 1) / 2) as nat;
        lemma_next_power_of_two(h);
        let p = next_power_of_two(h);
        assert((2 * p) / 2 == p);
        assert((2 * p) % 2 == 0);
    }
}

/// Calls `u64::next_power_of_two`: the smallest power of two greater than or equal to
/// `n`.  Above 2^63 that power does not fit and std panics in debug builds, so such
/// `n` are left out.
#[verifier::external_body]
fn u64_next_power_of_two(n: u64) -> (r: u64)
    requires
        n <= MAX_FRAME_BYTES,
    ensures
        r == next_power_of_two(n as nat),
{
    n.next_power_of_two()
}

/// The arena as plain numbers: the buffer's size and the bytes used this frame.
#[derive(Clone, Copy, Debug, PartialEq, Eq)]
pub struct ArenaModel {
    pub capacity_bytes: u64,
    pub offset: u64,
}

/// The byte range `[start, end)` of one draw, and the new buffer size when the draw
/// made the buffer grow.
#[derive(Clone, Copy, Debug, PartialEq, Eq, Structural)]
pub struct VertexRegion {
    pub start: u64,
    pub end: u64,
    pub grown_to: Option<u64>,
}

/// The used bytes fit in the buffer, and the buffer size is a power of two no smaller
/// than the initial one.
pub open spec fn arena_wf(m: ArenaModel) -> bool {
    &&& m.offset <= m.capacity_bytes
    &&& is_power_of_two(m.capacity_bytes as nat)
    &&& INITIAL_VERTEX_CAPACITY_BYTES <= m.capacity_bytes
}

/// One draw of `bytes` bytes: the arena afterwards and the draw's region.
pub open spec fn reserve_step(m: ArenaModel, bytes: u64) -> (ArenaModel, VertexRegion) {
    let needed = m.offset + bytes;
    if needed > m.capacity_bytes {
        let cap = next_power_of_two(needed as nat) as u64;
        (
            ArenaModel { capacity_bytes: cap, offset: needed as u64 },
            VertexRegion { start: m.offset, end: needed as u64, grown_to: Some(cap) },
        )
    } else {
        (
            ArenaModel { capacity_bytes: m.capacity_bytes, offset: needed as u64 },
            VertexRegion { start: m.offset, end: needed as u64, grown_to: None },
        )
    }
}

/// Runs the draws of a frame, of `sizes[i]` bytes each, from arena state `m`.
pub open spec fn reserve_all(m: ArenaModel, sizes: Seq<u64>) -> (ArenaModel, Seq<VertexRegion>)
    decreases sizes.len(),
{
    if sizes.len() == 0 {
        (m, Seq::empty())
    } else {
        let (m1, r) = reserve_step(m, sizes[0]);
        let (mf, rs) = reserve_all(m1, sizes.drop_first());
        (mf, seq![r] + rs)
    }
}

/// The sum of the sizes.
pub open spec fn total_bytes(sizes: Seq<u64>) -> nat
    decreases sizes.len(),
{
    if sizes.len() == 0 {
        0
    } else {
        sizes[0] as nat + total_bytes(sizes.drop_first())
    }
}

/// One draw keeps the arena well formed, puts its region right at the old offset with
/// exactly the bytes asked for, inside the buffer it is drawn from, and never shrinks
/// the buffer; a buffer that grows becomes the smallest power of two holding the frame.
pub proof fn lemma_reserve_step(m: ArenaModel, bytes: u64)
    requires
        arena_wf(m),
        m.offset + bytes <= MAX_FRAME_BYTES,
    ensures
        ({
            let (m2, r) = reserve_step(m, bytes);
            &&& arena_wf(m2)
            &&& r.start == m.offset
            &&& r.end == m.offset + bytes
            &&& m2.offset == r.end
            &&& r.end <= m2.capacity_bytes
            &&& m.capacity_bytes <= m2.capacity_bytes
            &&& r.grown_to matches Some(c) ==> {
                &&& c == m2.capacity_bytes
                &&& m.capacity_bytes < r.end
                &&& c < 2 * r.end
            }
        }),
{
    lemma_next_power_of_two((m.offset + bytes) as nat);
}

/// Law: the draws of one frame get regions one after the other, each of exactly the
/// size asked for, so that no two of them share a byte, and each lies inside the
/// buffer as it stands once the draw is made; the buffer never shrinks.
pub proof fn lemma_frame_regions_disjoint(m: ArenaModel, sizes: Seq<u64>)
    requires
        arena_wf(m),
        m.offset + total_bytes(sizes) <= MAX_FRAME_BYTES,
    ensures
        ({
            let (mf, rs) = reserve_all(m, sizes);
            &&& arena_wf(mf)
            &&& rs.len() == sizes.len()
            &&& mf.offset == m.offset + total_bytes(sizes)
            &&& m.capacity_bytes <= mf.capacity_bytes
            &&& forall|i: int| 0 <= i < rs.len() ==> {
                &&& m.offset <= (#[trigger] rs[i]).start
                &&& rs[i].end == rs[i].start + sizes[i]
                &&& rs[i].end <= mf.offset
                &&& rs[i].end <= mf.capacity_bytes
            }
            &&& forall|i: int, j: int| 0 <= i < j < rs.len() ==> (#[trigger] rs[i]).end <= (#[trigger] rs[j]).start
        }),
    decreases sizes.len(),
{
    if sizes.len() > 0 {
        let (m1, r0) = reserve_step(m, sizes[0]);
        lemma_reserve_step(m, sizes[0]);
        let tail = sizes.drop_first();
        lemma_frame_regions_disjoint(m1, tail);
        let (mf, rs1) = reserve_all(m1, tail);
        let rs = seq![r0] + rs1;
        assert(reserve_all(m, sizes) == (mf, rs));
        assert forall|i: int| 0 <= i < rs.len() implies {
            &&& m.offset <= (#[trigger] rs[i]).start
            &&& rs[i].end == rs[i].start + sizes[i]
            &&& rs[i].end <= mf.offset
            &&& rs[i].end <= mf.capacity_bytes
        } by {
            if i > 0 {
                assert(rs[i] == rs1[i - 1]);
                assert(sizes[i] == tail[i - 1]);
            }
        }
        assert forall|i: int, j: int| 0 <= i < j < rs.len() implies (#[trigger] rs[i]).end <= (#[trigger] rs[j]).start by {
            assert(rs[j] == rs1[j - 1]);
            if i > 0 {
                assert(rs[i] == rs1[i - 1]);
            }
        }
    }
}

/// Law: when the frame starts on a vertex boundary and every draw is a whole number of
/// vertices, every region starts and ends on a vertex boundary, and so does the frame.
pub proof fn lemma_frame_regions_aligned(m: ArenaModel, sizes: Seq<u64>)
    requires
        arena_wf(m),
        m.offset + total_bytes(sizes) <= MAX_FRAME_BYTES,
        m.offset % TEXT_VERTEX_STRIDE == 0,
        forall|i: int| 0 <= i < sizes.len() ==> #[trigger] sizes[i] % TEXT_VERTEX_STRIDE == 0,
    ensures
        ({
            let (mf, rs) = reserve_all(m, sizes);
            &&& mf.offset % TEXT_VERTEX_STRIDE == 0
            &&& forall|i: int| 0 <= i < rs.len() ==> (#[trigger] rs[i]).start % TEXT_VERTEX_STRIDE == 0
                && rs[i].end % TEXT_VERTEX_STRIDE == 0
        }),
    decreases sizes.len(),
{
    lemma_frame_regions_disjoint(m, sizes);
    if sizes.len() > 0 {
        let (m1, r0) = reserve_step(m, sizes[0]);
        lemma_reserve_step(m, sizes[0]);
        let tail = sizes.drop_first();
        assert(sizes[0] % TEXT_VERTEX_STRIDE == 0);
        assert forall|i: int| 0 <= i < tail.len() implies #[trigger] tail[i] % TEXT_VERTEX_STRIDE == 0 by {
            assert(tail[i] == sizes[i + 1]);
        }
        lemma_frame_regions_aligned(m1, tail);
        let (mf, rs1) = reserve_all(m1, tail);
        let rs = seq![r0] + rs1;
        assert(reserve_all(m, sizes) == (mf, rs));
        assert forall|i: int| 0 <= i < rs.len() implies (#[trigger] rs[i]).start % TEXT_VERTEX_STRIDE == 0
            && rs[i].end % TEXT_VERTEX_STRIDE == 0 by {
            if i > 0 {
                assert(rs[i] == rs1[i - 1]);
            }
        }
    }
}

/// Law: a draw whose bytes, added to those already used this frame, exceed the buffer
/// reports that the buffer grows, to a power of two that holds the frame and is less
/// than twice it; a draw that fits reports no growth and leaves the buffer as it is.
/// Either way its region starts at the old offset and holds exactly the bytes asked
/// for.
pub proof fn lemma_reserve_reports_growth(m: ArenaModel, bytes: u64)
    requires
        arena_wf(m),
        m.offset + bytes <= MAX_FRAME_BYTES,
    ensures
        ({
            let (m2, r) = reserve_step(m, bytes);
            let needed = m.offset + bytes;
            &&& r.start == m.offset
            &&& r.end == needed
            &&& m2.offset == needed
            &&& needed > m.capacity_bytes ==> {
                &&& r.grown_to == Some(m2.capacity_bytes)
                &&& is_power_of_two(m2.capacity_bytes as nat)
                &&& needed <= m2.capacity_bytes < 2 * needed
            }
            &&& needed <= m.capacity_bytes ==> r.grown_to is None && m2.capacity_bytes == m.capacity_bytes
            &&& r.grown_to is None ==> m2.capacity_bytes == m.capacity_bytes
        }),
{
    lemma_next_power_of_two((m.offset + bytes) as nat);
}

/// The byte bookkeeping of the text vertex buffer.
pub struct VertexArena {
    capacity_bytes: u64,
    offset: u64,
}

impl View for VertexArena {
    type V = ArenaModel;

    closed spec fn view(&self) -> ArenaModel {
        ArenaModel { capacity_bytes: self.capacity_bytes, offset: self.offset }
    }
}

impl VertexArena {
    /// A fresh arena over a buffer of the initial size.
    pub fn new() -> (a: Self)
        ensures
            a@ == (ArenaModel { capacity_bytes: INITIAL_VERTEX_CAPACITY_BYTES, offset: 0 }),
            arena_wf(a@),
    {
        assert(is_power_of_two(16384)) by {
            reveal_with_fuel(is_power_of_two, 16);
        }
        VertexArena { capacity_bytes: INITIAL_VERTEX_CAPACITY_BYTES, offset: 0 }
    }

    /// The current state as plain numbers.
    pub fn model(&self) -> (m: ArenaModel)
        ensures
            m == self@,
    {
        ArenaModel { capacity_bytes: self.capacity_bytes, offset: self.offset }
    }

    /// Bytes used so far this frame.
    pub fn offset(&self) -> (n: u64)
        ensures
            n == self@.offset,
    {
        self.offset
    }

    /// Size of the buffer in bytes.
    pub fn capacity_bytes(&self) -> (n: u64)
        ensures
            n == self@.capacity_bytes,
    {
        self.capacity_bytes
    }

    /// Starts a frame: later draws overwrite what earlier frames drew.
    pub fn begin_frame(&mut self)
        requires
            arena_wf(old(self)@),
        ensures
            final(self)@ == (ArenaModel { capacity_bytes: old(self)@.capacity_bytes, offset: 0 }),
            arena_wf(final(self)@),
    {
        self.offset = 0;
    }

    /// Reserves the region of a draw of `bytes` bytes, growing the buffer first when
    /// the frame's draws would not fit.
    pub fn reserve(&mut self, bytes: u64) -> (r: VertexRegion)
        requires
            arena_wf(old(self)@),
            old(self)@.offset + bytes <= MAX_FRAME_BYTES,
        ensures
            (final(self)@, r) == reserve_step(old(self)@, bytes),
            arena_wf(final(self)@),
            old(self)@.offset + bytes > old(self)@.capacity_bytes ==> r.grown_to == Some(
                final(self)@.capacity_bytes,
            ),
            r.grown_to is None ==> final(self)@.capacity_bytes == old(self)@.capacity_bytes,
    {
        proof {
            lemma_reserve_step(self@, bytes);
            lemma_reserve_reports_growth(self@, bytes);
        }
        let start = self.offset;
        let end = self.offset + bytes;
        let mut grown_to: Option<u64> = None;
        if end > self.capacity_bytes {
            let cap = u64_next_power_of_two(end);
            self.capacity_bytes = cap;
            grown_to = Some(cap);
        }
        self.offset = end;
        VertexRegion { start, end, grown_to }
    }
}

/// Bytes of `vertex_count` text vertices.
pub fn vertex_bytes(vertex_count: u64) -> (n: u64)
    requires
        vertex_count * TEXT_VERTEX_STRIDE <= u64::MAX,
    ensures
        n == vertex_count * TEXT_VERTEX_STRIDE,
        n % TEXT_VERTEX_STRIDE == 0,
{
    vertex_count * TEXT_VERTEX_STRIDE
}

} // verus!
