//! The immediate-mode renderer core: per-frame vertex batching and
//! draw-call compaction.
//!
//! Geometry is fully rebuilt every frame: `clear` empties the frame
//! state, `add_triangle` and `add_line` append vertices and one
//! descriptor per submission, and `prepare_draw` hands the platform
//! layer the upload payload together with the compacted draw-call lists.
//! The GPU buffer, shader program and attribute layout the payload is
//! drawn with are platform resources managed around this type.

use vstd::prelude::*;
use crate::bits::{Vec3Bits, Vec4Bits, BITS_ONE};

verus! {

/// One vertex of the per-frame list: a homogeneous position and an RGBA
/// colour, eight 32-bit words in all.
#[derive(Clone, Copy, PartialEq, Eq, Structural, Debug)]
pub struct ImmediateRenderVertex {
    pub position: Vec4Bits,
    pub colour: Vec4Bits,
}

impl ImmediateRenderVertex {
    /// The vertex as it is laid out for upload: the four position words,
    /// then the four colour words.
    pub open spec fn words(self) -> Seq<u32> {
        seq![
            self.position.x,
            self.position.y,
            self.position.z,
            self.position.w,
            self.colour.x,
            self.colour.y,
            self.colour.z,
            self.colour.w,
        ]
    }

    /// The vertex a submission builds from a point and a colour: the
    /// position extended with w = 1.
    pub open spec fn from_point(p: Vec3Bits, c: Vec4Bits) -> ImmediateRenderVertex {
        ImmediateRenderVertex { position: p.homogeneous(), colour: c }
    }
}

/// A draw-call descriptor: one contiguous run of `vertex_count` vertices
/// starting at index `start_vertex` of the frame's vertex list.
#[derive(Clone, Copy, PartialEq, Eq, Structural, Debug)]
pub struct ImmediateRenderDrawcall {
    pub start_vertex: usize,
    pub vertex_count: usize,
}

impl ImmediateRenderDrawcall {
    /// The first vertex index past the run.
    pub open spec fn end(self) -> int {
        self.start_vertex + self.vertex_count
    }
}

/// The vertices drawn by `calls`, as a total count.
pub open spec fn sum_counts(calls: Seq<ImmediateRenderDrawcall>) -> int
    decreases calls.len(),
{
    if calls.len() == 0 {
        0
    } else {
        sum_counts(calls.drop_last()) + calls.last().vertex_count
    }
}

/// The two runs share no vertex index.
pub open spec fn ranges_disjoint(a: ImmediateRenderDrawcall, b: ImmediateRenderDrawcall) -> bool {
    a.end() <= b.start_vertex || b.end() <= a.start_vertex
}

/// Every run ends within a vertex list of length `vlen`.
pub open spec fn calls_within(calls: Seq<ImmediateRenderDrawcall>, vlen: int) -> bool {
    forall|i: int| 0 <= i < calls.len() ==> #[trigger] calls[i].end() <= vlen
}

/// The runs appear in submission order: each ends at or before the next
/// begins.
pub open spec fn calls_ordered(calls: Seq<ImmediateRenderDrawcall>) -> bool {
    forall|i: int, j: int|
        #![trigger calls[i], calls[j]]
        0 <= i < j < calls.len() ==> calls[i].end() <= calls[j].start_vertex
}

/// No run of `a` shares a vertex index with a run of `b`.
pub open spec fn calls_disjoint_across(
    a: Seq<ImmediateRenderDrawcall>,
    b: Seq<ImmediateRenderDrawcall>,
) -> bool {
    forall|i: int, j: int|
        #![trigger a[i], b[j]]
        0 <= i < a.len() && 0 <= j < b.len() ==> ranges_disjoint(a[i], b[j])
}

/// Vertex index `k` lies inside one of the runs.
pub open spec fn covers(calls: Seq<ImmediateRenderDrawcall>, k: int) -> bool {
    exists|i: int| 0 <= i < calls.len() && #[trigger] calls[i].start_vertex <= k < calls[i].end()
}

/// The words of `vertices` laid out back to back, the upload payload for
/// the frame's vertex buffer.
pub open spec fn words_of(vertices: Seq<ImmediateRenderVertex>) -> Seq<u32>
    decreases vertices.len(),
{
    if vertices.len() == 0 {
        Seq::empty()
    } else {
        words_of(vertices.drop_last()) + vertices.last().words()
    }
}

/// Draw-call compaction, from a pending run of `run_count` vertices
/// starting at `run_start`: a descriptor that continues the pending run
/// extends it; any other descriptor flushes the run (if non-empty) as one
/// draw call and becomes the new pending run; the last pending run is
/// flushed at the end.
pub open spec fn compact_from(
    calls: Seq<ImmediateRenderDrawcall>,
    run_start: int,
    run_count: int,
) -> Seq<ImmediateRenderDrawcall>
    decreases calls.len(),
{
    if calls.len() == 0 {
        if run_count > 0 {
            seq![
                ImmediateRenderDrawcall {
                    start_vertex: run_start as usize,
                    vertex_count: run_count as usize,
                },
            ]
        } else {
            Seq::empty()
        }
    } else if calls[0].start_vertex == run_start + run_count {
        compact_from(calls.skip(1), run_start, run_count + calls[0].vertex_count)
    } else if run_count > 0 {
        seq![
            ImmediateRenderDrawcall {
                start_vertex: run_start as usize,
                vertex_count: run_count as usize,
            },
        ] + compact_from(calls.skip(1), calls[0].start_vertex as int, calls[0].vertex_count as int)
    } else {
        compact_from(calls.skip(1), calls[0].start_vertex as int, calls[0].vertex_count as int)
    }
}

/// Draw-call compaction: the descriptors, visited in submission order,
/// merged into maximal contiguous runs.
pub open spec fn compact_spec(calls: Seq<ImmediateRenderDrawcall>) -> Seq<ImmediateRenderDrawcall> {
    if calls.len() == 0 {
        Seq::empty()
    } else {
        compact_from(calls.skip(1), calls[0].start_vertex as int, calls[0].vertex_count as int)
    }
}

/// The renderer's frame state as mathematical sequences: the vertex list,
/// the two descriptor lists, and the vertex buffer capacity.
pub struct FrameState {
    pub vertices: Seq<ImmediateRenderVertex>,
    pub triangle_draws: Seq<ImmediateRenderDrawcall>,
    pub line_draws: Seq<ImmediateRenderDrawcall>,
    pub max_vertices: nat,
}

impl FrameState {
    /// The frame invariant: triangle descriptors are 3-vertex runs and
    /// line descriptors 2-vertex runs; every descriptor lies within the
    /// vertex list; each list is in submission order; no two descriptors
    /// overlap; and the descriptors cover the whole vertex list — the
    /// runs partition it, with no gaps and no overlaps.
    pub open spec fn wf(self) -> bool {
        &&& forall|i: int|
            0 <= i < self.triangle_draws.len() ==> #[trigger] self.triangle_draws[i].vertex_count
                == 3
        &&& forall|i: int|
            0 <= i < self.line_draws.len() ==> #[trigger] self.line_draws[i].vertex_count == 2
        &&& calls_within(self.triangle_draws, self.vertices.len() as int)
        &&& calls_within(self.line_draws, self.vertices.len() as int)
        &&& calls_ordered(self.triangle_draws)
        &&& calls_ordered(self.line_draws)
        &&& calls_disjoint_across(self.triangle_draws, self.line_draws)
        &&& sum_counts(self.triangle_draws) + sum_counts(self.line_draws) == self.vertices.len()
        &&& forall|k: int|
            0 <= k < self.vertices.len() ==> covers(self.triangle_draws, k) || covers(
                self.line_draws,
                k,
            )
    }

    /// The frame state right after `new` or `clear`: everything empty.
    pub open spec fn empty(max_vertices: nat) -> FrameState {
        FrameState {
            vertices: Seq::empty(),
            triangle_draws: Seq::empty(),
            line_draws: Seq::empty(),
            max_vertices: max_vertices,
        }
    }
}

/// The immediate renderer's CPU-side state: the frame's vertex list and
/// the triangle and line descriptor lists, rebuilt every frame.
pub struct ImmediateRender {
    max_vertex_count: u32,
    current_vertices: Vec<ImmediateRenderVertex>,
    current_triangle_draws: Vec<ImmediateRenderDrawcall>,
    current_line_draws: Vec<ImmediateRenderDrawcall>,
}

impl View for ImmediateRender {
    type V = FrameState;

    closed spec fn view(&self) -> FrameState {
        FrameState {
            vertices: self.current_vertices@,
            triangle_draws: self.current_triangle_draws@,
            line_draws: self.current_line_draws@,
            max_vertices: self.max_vertex_count as nat,
        }
    }
}

/// `calls` still covers `k` after another call is appended.
proof fn lemma_covers_push(calls: Seq<ImmediateRenderDrawcall>, c: ImmediateRenderDrawcall, k: int)
    requires
        covers(calls, k),
    ensures
        covers(calls.push(c), k),
{
    let i = choose|i: int|
        0 <= i < calls.len() && #[trigger] calls[i].start_vertex <= k < calls[i].end();
    assert(calls.push(c)[i] == calls[i]);
}

/// Appending a call adds its count to the total.
proof fn lemma_sum_counts_push(calls: Seq<ImmediateRenderDrawcall>, c: ImmediateRenderDrawcall)
    ensures
        sum_counts(calls.push(c)) == sum_counts(calls) + c.vertex_count,
{
    assert(calls.push(c).drop_last() =~= calls);
}

impl ImmediateRender {
    /// The frame invariant, on the current state.
    pub open spec fn wf(&self) -> bool {
        self@.wf()
    }

    /// A renderer whose frames hold at most `max_vertex_count` vertices,
    /// with empty frame state. The GPU vertex buffer sized for that
    /// capacity, the passthrough shader program and the position/colour
    /// attribute layout are platform resources the platform layer
    /// creates around this.
    pub fn new(max_vertex_count: u32) -> (r: ImmediateRender)
        ensures
            r.wf(),
            r@ == FrameState::empty(max_vertex_count as nat),
    {
        ImmediateRender {
            max_vertex_count,
            current_vertices: Vec::new(),
            current_triangle_draws: Vec::new(),
            current_line_draws: Vec::new(),
        }
    }

    /// Resets the vertex list and both descriptor lists to empty. Must
    /// be called before the frame's submissions: without it geometry
    /// accumulates without bound and outgrows the vertex buffer.
    pub fn clear(&mut self)
        ensures
            final(self).wf(),
            final(self)@ == FrameState::empty(old(self)@.max_vertices),
    {
        self.current_vertices.clear();
        self.current_triangle_draws.clear();
        self.current_line_draws.clear();
    }

    /// Appends the triangle's three vertices and one 3-vertex triangle
    /// descriptor starting at the current end of the vertex list.
    pub fn add_triangle(
        &mut self,
        v0: &Vec3Bits,
        c0: &Vec4Bits,
        v1: &Vec3Bits,
        c1: &Vec4Bits,
        v2: &Vec3Bits,
        c2: &Vec4Bits,
    )
        requires
            old(self).wf(),
        ensures
            final(self).wf(),
            final(self)@.vertices == old(self)@.vertices.push(
                ImmediateRenderVertex::from_point(*v0, *c0),
            ).push(ImmediateRenderVertex::from_point(*v1, *c1)).push(
                ImmediateRenderVertex::from_point(*v2, *c2),
            ),
            final(self)@.triangle_draws == old(self)@.triangle_draws.push(
                ImmediateRenderDrawcall {
                    start_vertex: old(self)@.vertices.len() as usize,
                    vertex_count: 3,
                },
            ),
            final(self)@.line_draws == old(self)@.line_draws,
            final(self)@.max_vertices == old(self)@.max_vertices,
    {
        let vertex0 = ImmediateRenderVertex {
            position: Vec4Bits { x: v0.x, y: v0.y, z: v0.z, w: BITS_ONE },
            colour: *c0,
        };
        let vertex1 = ImmediateRenderVertex {
            position: Vec4Bits { x: v1.x, y: v1.y, z: v1.z, w: BITS_ONE },
            colour: *c1,
        };
        let vertex2 = ImmediateRenderVertex {
            position: Vec4Bits { x: v2.x, y: v2.y, z: v2.z, w: BITS_ONE },
            colour: *c2,
        };
        let draw = ImmediateRenderDrawcall {
            start_vertex: self.current_vertices.len(),
            vertex_count: 3,
        };
        let ghost pre = self@;
        self.current_vertices.push(vertex0);
        self.current_vertices.push(vertex1);
        self.current_vertices.push(vertex2);
        self.current_triangle_draws.push(draw);
        proof {
            Self::lemma_wf_after_submission(pre, self@, draw, true);
        }
    }

    /// Appends the line's two vertices and one 2-vertex line descriptor
    /// starting at the current end of the vertex list.
    pub fn add_line(&mut self, v0: &Vec3Bits, c0: &Vec4Bits, v1: &Vec3Bits, c1: &Vec4Bits)
        requires
            old(self).wf(),
        ensures
            final(self).wf(),
            final(self)@.vertices == old(self)@.vertices.push(
                ImmediateRenderVertex::from_point(*v0, *c0),
            ).push(ImmediateRenderVertex::from_point(*v1, *c1)),
            final(self)@.line_draws == old(self)@.line_draws.push(
                ImmediateRenderDrawcall {
                    start_vertex: old(self)@.vertices.len() as usize,
                    vertex_count: 2,
                },
            ),
            final(self)@.triangle_draws == old(self)@.triangle_draws,
            final(self)@.max_vertices == old(self)@.max_vertices,
    {
        let vertex0 = ImmediateRenderVertex {
            position: Vec4Bits { x: v0.x, y: v0.y, z: v0.z, w: BITS_ONE },
            colour: *c0,
        };
        let vertex1 = ImmediateRenderVertex {
            position: Vec4Bits { x: v1.x, y: v1.y, z: v1.z, w: BITS_ONE },
            colour: *c1,
        };
        let draw = ImmediateRenderDrawcall {
            start_vertex: self.current_vertices.len(),
            vertex_count: 2,
        };
        let ghost pre = self@;
        self.current_vertices.push(vertex0);
        self.current_vertices.push(vertex1);
        self.current_line_draws.push(draw);
        proof {
            Self::lemma_wf_after_submission(pre, self@, draw, false);
        }
    }

    /// A submission preserves the frame invariant: the new descriptor's
    /// run sits exactly on the appended vertices, past every existing
    /// run.
    proof fn lemma_wf_after_submission(
        pre: FrameState,
        post: FrameState,
        draw: ImmediateRenderDrawcall,
        is_triangle: bool,
    )
        requires
            pre.wf(),
            draw.start_vertex == pre.vertices.len(),
            draw.vertex_count == if is_triangle { 3int } else { 2int },
            post.vertices.len() == pre.vertices.len() + draw.vertex_count,
            is_triangle ==> post.triangle_draws == pre.triangle_draws.push(draw)
                && post.line_draws == pre.line_draws,
            !is_triangle ==> post.line_draws == pre.line_draws.push(draw)
                && post.triangle_draws == pre.triangle_draws,
        ensures
            post.wf(),
    {
        let n = pre.vertices.len() as int;
        let extended = if is_triangle {
            pre.triangle_draws
        } else {
            pre.line_draws
        };
        let grown = extended.push(draw);
        lemma_sum_counts_push(extended, draw);
        assert(forall|i: int| 0 <= i < extended.len() ==> grown[i] == extended[i]);
        assert(grown[extended.len() as int] == draw);
        assert forall|k: int| 0 <= k < post.vertices.len() implies covers(post.triangle_draws, k)
            || covers(post.line_draws, k) by {
            if k < n {
                if covers(pre.triangle_draws, k) {
                    lemma_covers_push(pre.triangle_draws, draw, k);
                } else {
                    lemma_covers_push(pre.line_draws, draw, k);
                }
            } else {
                assert(grown[extended.len() as int].start_vertex <= k < grown[extended.len() as int].end());
            }
        }
    }
}

/// `sum_counts` decomposed at the front instead of the back.
proof fn lemma_sum_counts_first(calls: Seq<ImmediateRenderDrawcall>)
    requires
        calls.len() > 0,
    ensures
        sum_counts(calls) == calls[0].vertex_count + sum_counts(calls.skip(1)),
    decreases calls.len(),
{
    if calls.len() == 1 {
        assert(calls.skip(1) =~= Seq::empty());
        assert(calls.drop_last() =~= Seq::empty());
    } else {
        lemma_sum_counts_first(calls.drop_last());
        assert(calls.drop_last().skip(1) =~= calls.skip(1).drop_last());
        assert(calls.drop_last()[0] == calls[0]);
        assert(calls.skip(1).last() == calls.last());
    }
}

/// A total drawn-vertex count is never negative.
proof fn lemma_sum_counts_nonneg(calls: Seq<ImmediateRenderDrawcall>)
    ensures
        sum_counts(calls) >= 0,
    decreases calls.len(),
{
    if calls.len() > 0 {
        lemma_sum_counts_nonneg(calls.drop_last());
    }
}

/// A list of 3-vertex runs draws 3 vertices per run.
proof fn lemma_sum_counts_triangles(calls: Seq<ImmediateRenderDrawcall>)
    requires
        forall|i: int| 0 <= i < calls.len() ==> #[trigger] calls[i].vertex_count == 3,
    ensures
        sum_counts(calls) == 3 * calls.len(),
    decreases calls.len(),
{
    if calls.len() > 0 {
        assert(forall|i: int|
            0 <= i < calls.drop_last().len() ==> #[trigger] calls.drop_last()[i].vertex_count == 3);
        lemma_sum_counts_triangles(calls.drop_last());
    }
}

/// A list of 2-vertex runs draws 2 vertices per run.
proof fn lemma_sum_counts_lines(calls: Seq<ImmediateRenderDrawcall>)
    requires
        forall|i: int| 0 <= i < calls.len() ==> #[trigger] calls[i].vertex_count == 2,
    ensures
        sum_counts(calls) == 2 * calls.len(),
    decreases calls.len(),
{
    if calls.len() > 0 {
        assert(forall|i: int|
            0 <= i < calls.drop_last().len() ==> #[trigger] calls.drop_last()[i].vertex_count == 2);
        lemma_sum_counts_lines(calls.drop_last());
    }
}

/// Law: after any sequence of submissions into a cleared frame, the
/// vertex list holds exactly 3 vertices per triangle submission plus 2
/// per line submission. (That the descriptor runs partition the vertex
/// list — in bounds, in submission order, with no overlaps and no gaps —
/// is stated by `FrameState::wf` itself.)
pub proof fn lemma_frame_vertex_count(s: FrameState)
    requires
        s.wf(),
    ensures
        s.vertices.len() == 3 * s.triangle_draws.len() + 2 * s.line_draws.len(),
{
    lemma_sum_counts_triangles(s.triangle_draws);
    lemma_sum_counts_lines(s.line_draws);
}

/// A frame with no vertices has no descriptors either.
proof fn lemma_empty_frame_no_calls(s: FrameState)
    requires
        s.wf(),
        s.vertices.len() == 0,
    ensures
        s.triangle_draws.len() == 0,
        s.line_draws.len() == 0,
{
    lemma_frame_vertex_count(s);
}

/// Compaction of a pending run followed by descriptors that each
/// continue it merges everything into that one run.
proof fn lemma_compact_from_contiguous(
    calls: Seq<ImmediateRenderDrawcall>,
    run_start: int,
    run_count: int,
)
    requires
        0 <= run_start,
        0 < run_count,
        calls.len() > 0 ==> calls[0].start_vertex == run_start + run_count,
        forall|i: int| 1 <= i < calls.len() ==> #[trigger] calls[i].start_vertex == calls[i - 1].end(),
        run_start + run_count + sum_counts(calls) <= usize::MAX,
    ensures
        compact_from(calls, run_start, run_count) == seq![
            ImmediateRenderDrawcall {
                start_vertex: run_start as usize,
                vertex_count: (run_count + sum_counts(calls)) as usize,
            },
        ],
    decreases calls.len(),
{
    if calls.len() == 0 {
    } else {
        lemma_sum_counts_first(calls);
        lemma_sum_counts_nonneg(calls.skip(1));
        assert(forall|i: int|
            1 <= i < calls.skip(1).len() ==> #[trigger] calls.skip(1)[i].start_vertex == calls.skip(
                1,
            )[i - 1].end());
        if calls.skip(1).len() > 0 {
            assert(calls[1].start_vertex == calls[0].end());
        }
        lemma_compact_from_contiguous(
            calls.skip(1),
            run_start,
            run_count + calls[0].vertex_count,
        );
    }
}

/// Law: when every descriptor directly continues the one before it —
/// contiguous submissions, no gaps — compaction yields exactly one draw
/// call, starting where the first descriptor starts and drawing all the
/// vertices the descriptors draw together.
pub proof fn lemma_compact_contiguous(calls: Seq<ImmediateRenderDrawcall>)
    requires
        calls.len() > 0,
        calls[0].vertex_count > 0,
        forall|i: int| 1 <= i < calls.len() ==> #[trigger] calls[i].start_vertex == calls[i - 1].end(),
        calls[0].start_vertex + sum_counts(calls) <= usize::MAX,
    ensures
        compact_spec(calls) == seq![
            ImmediateRenderDrawcall {
                start_vertex: calls[0].start_vertex,
                vertex_count: sum_counts(calls) as usize,
            },
        ],
{
    lemma_sum_counts_first(calls);
    assert(forall|i: int|
        1 <= i < calls.skip(1).len() ==> #[trigger] calls.skip(1)[i].start_vertex == calls.skip(
            1,
        )[i - 1].end());
    if calls.skip(1).len() > 0 {
        assert(calls[1].start_vertex == calls[0].end());
    }
    lemma_compact_from_contiguous(
        calls.skip(1),
        calls[0].start_vertex as int,
        calls[0].vertex_count as int,
    );
}

/// The vertex indices a run of `count` vertices from `start` draws.
pub open spec fn run_indices(start: int, count: int) -> Seq<int> {
    Seq::new(count as nat, |i: int| start + i)
}

/// The vertex indices `calls` draws, one by one, in draw order.
pub open spec fn drawn_indices(calls: Seq<ImmediateRenderDrawcall>) -> Seq<int>
    decreases calls.len(),
{
    if calls.len() == 0 {
        Seq::empty()
    } else {
        run_indices(calls[0].start_vertex as int, calls[0].vertex_count as int) + drawn_indices(
            calls.skip(1),
        )
    }
}

/// Compaction from a pending run draws the pending run first and then
/// whatever the remaining descriptors draw, in order.
proof fn lemma_compact_from_drawn(
    calls: Seq<ImmediateRenderDrawcall>,
    run_start: int,
    run_count: int,
)
    requires
        0 <= run_start,
        0 <= run_count,
        run_start + run_count <= usize::MAX,
        forall|i: int| 0 <= i < calls.len() ==> #[trigger] calls[i].end() <= usize::MAX,
    ensures
        drawn_indices(compact_from(calls, run_start, run_count)) == run_indices(
            run_start,
            run_count,
        ) + drawn_indices(calls),
    decreases calls.len(),
{
    if calls.len() == 0 {
        if run_count > 0 {
            let emitted = ImmediateRenderDrawcall {
                start_vertex: run_start as usize,
                vertex_count: run_count as usize,
            };
            assert(drawn_indices(seq![emitted]) =~= run_indices(run_start, run_count)
                + drawn_indices(calls)) by {
                assert(seq![emitted].skip(1) =~= Seq::<ImmediateRenderDrawcall>::empty());
                assert(seq![emitted][0] == emitted);
                assert(drawn_indices(Seq::<ImmediateRenderDrawcall>::empty())
                    == Seq::<int>::empty());
                assert(run_indices(emitted.start_vertex as int, emitted.vertex_count as int)
                    =~= run_indices(run_start, run_count));
            }
        } else {
            assert(run_indices(run_start, run_count) + drawn_indices(calls) =~= Seq::<int>::empty());
        }
    } else {
        let d = calls[0];
        assert(d.end() <= usize::MAX);
        let rest = calls.skip(1);
        assert(forall|i: int| 0 <= i < rest.len() ==> #[trigger] rest[i].end() <= usize::MAX) by {
            assert(forall|i: int|
                0 <= i < rest.len() ==> rest[i] == #[trigger] calls[i + 1] && calls[
                    i + 1
                ].end() <= usize::MAX);
        }
        if d.start_vertex == run_start + run_count {
            lemma_compact_from_drawn(rest, run_start, run_count + d.vertex_count);
            assert(run_indices(run_start, run_count + d.vertex_count) =~= run_indices(
                run_start,
                run_count,
            ) + run_indices(d.start_vertex as int, d.vertex_count as int));
            assert((run_indices(run_start, run_count) + run_indices(
                d.start_vertex as int,
                d.vertex_count as int,
            )) + drawn_indices(rest) =~= run_indices(run_start, run_count) + (run_indices(
                d.start_vertex as int,
                d.vertex_count as int,
            ) + drawn_indices(rest)));
        } else if run_count > 0 {
            let emitted = ImmediateRenderDrawcall {
                start_vertex: run_start as usize,
                vertex_count: run_count as usize,
            };
            lemma_compact_from_drawn(rest, d.start_vertex as int, d.vertex_count as int);
            let tail = compact_from(rest, d.start_vertex as int, d.vertex_count as int);
            assert((seq![emitted] + tail).skip(1) =~= tail);
            assert((seq![emitted] + tail)[0] == emitted);
            assert(run_indices(emitted.start_vertex as int, emitted.vertex_count as int)
                =~= run_indices(run_start, run_count));
            assert(run_indices(run_start, run_count) + (run_indices(
                d.start_vertex as int,
                d.vertex_count as int,
            ) + drawn_indices(rest)) =~= run_indices(run_start, run_count) + drawn_indices(calls));
        } else {
            lemma_compact_from_drawn(rest, d.start_vertex as int, d.vertex_count as int);
            assert(run_indices(run_start, run_count) =~= Seq::<int>::empty());
            assert(run_indices(run_start, run_count) + drawn_indices(calls) =~= drawn_indices(
                calls,
            ));
        }
    }
}

/// Law: compaction changes only how the vertices are grouped into draw
/// calls, never what is drawn — the compacted calls draw exactly the
/// same vertex indices in exactly the same order as the submitted
/// descriptors.
pub proof fn lemma_compact_preserves_drawn(calls: Seq<ImmediateRenderDrawcall>)
    requires
        forall|i: int| 0 <= i < calls.len() ==> #[trigger] calls[i].end() <= usize::MAX,
    ensures
        drawn_indices(compact_spec(calls)) == drawn_indices(calls),
{
    if calls.len() > 0 {
        let d = calls[0];
        assert(d.end() <= usize::MAX);
        let rest = calls.skip(1);
        assert(forall|i: int| 0 <= i < rest.len() ==> #[trigger] rest[i].end() <= usize::MAX) by {
            assert(forall|i: int|
                0 <= i < rest.len() ==> rest[i] == #[trigger] calls[i + 1] && calls[
                    i + 1
                ].end() <= usize::MAX);
        }
        lemma_compact_from_drawn(rest, d.start_vertex as int, d.vertex_count as int);
    }
}

/// Each run ends strictly before the next begins: no two adjacent runs
/// could be merged into one draw call.
pub open spec fn calls_gapped(calls: Seq<ImmediateRenderDrawcall>) -> bool {
    forall|i: int| 0 <= i && i + 1 < calls.len() ==> #[trigger] calls[i].end() < calls[i + 1].start_vertex
}

/// Compaction from a pending run, fed descriptors in submission order
/// that all start at or past the run's end, yields runs that begin with
/// the pending one, draw at least one vertex each, and sit strictly
/// apart.
proof fn lemma_compact_from_gapped(
    calls: Seq<ImmediateRenderDrawcall>,
    run_start: int,
    run_count: int,
)
    requires
        0 <= run_start,
        0 < run_count,
        run_start + run_count <= usize::MAX,
        forall|i: int| 0 <= i < calls.len() ==> #[trigger] calls[i].end() <= usize::MAX,
        forall|i: int| 0 <= i < calls.len() ==> #[trigger] calls[i].vertex_count > 0,
        calls_ordered(calls),
        calls.len() > 0 ==> run_start + run_count <= calls[0].start_vertex,
    ensures
        compact_from(calls, run_start, run_count).len() >= 1,
        compact_from(calls, run_start, run_count)[0].start_vertex == run_start,
        forall|i: int|
            0 <= i < compact_from(calls, run_start, run_count).len() ==> #[trigger] compact_from(
                calls,
                run_start,
                run_count,
            )[i].vertex_count > 0,
        calls_gapped(compact_from(calls, run_start, run_count)),
    decreases calls.len(),
{
    if calls.len() == 0 {
    } else {
        let d = calls[0];
        assert(d.end() <= usize::MAX);
        assert(d.vertex_count > 0);
        let rest = calls.skip(1);
        assert(forall|i: int|
            0 <= i < rest.len() ==> rest[i] == #[trigger] calls[i + 1] && calls[i + 1].end()
                <= usize::MAX && calls[i + 1].vertex_count > 0);
        assert(calls_ordered(rest)) by {
            assert(forall|i: int, j: int|
                #![trigger rest[i], rest[j]]
                0 <= i < j < rest.len() ==> rest[i] == calls[i + 1] && rest[j] == calls[j + 1]
                    && calls[i + 1].end() <= calls[j + 1].start_vertex);
        }
        if rest.len() > 0 {
            assert(d.end() <= calls[1].start_vertex);
            assert(rest[0] == calls[1]);
        }
        if d.start_vertex == run_start + run_count {
            lemma_compact_from_gapped(rest, run_start, run_count + d.vertex_count);
        } else {
            assert(run_start + run_count < d.start_vertex);
            lemma_compact_from_gapped(rest, d.start_vertex as int, d.vertex_count as int);
            let emitted = ImmediateRenderDrawcall {
                start_vertex: run_start as usize,
                vertex_count: run_count as usize,
            };
            let tail = compact_from(rest, d.start_vertex as int, d.vertex_count as int);
            let whole = seq![emitted] + tail;
            assert(whole[0] == emitted);
            assert(forall|i: int| 0 <= i < tail.len() ==> whole[i + 1] == #[trigger] tail[i]);
            assert(calls_gapped(whole)) by {
                assert(emitted.end() < tail[0].start_vertex);
                assert(forall|i: int|
                    1 <= i && i + 1 < whole.len() ==> #[trigger] whole[i].end() == tail[
                        i - 1
                    ].end() && whole[i + 1].start_vertex == tail[i - 1 + 1].start_vertex && tail[
                        i - 1
                    ].end() < tail[i - 1 + 1].start_vertex);
            }
        }
    }
}

/// Law: on descriptors in submission order that each draw at least one
/// vertex — every frame's triangle and line lists are such — compaction
/// yields exactly the maximal contiguous runs: every output call draws
/// something, and between two adjacent output calls there is always a
/// genuine gap, so no fewer draw calls could cover the same runs.
pub proof fn lemma_compact_maximal_runs(calls: Seq<ImmediateRenderDrawcall>)
    requires
        forall|i: int| 0 <= i < calls.len() ==> #[trigger] calls[i].end() <= usize::MAX,
        forall|i: int| 0 <= i < calls.len() ==> #[trigger] calls[i].vertex_count > 0,
        calls_ordered(calls),
    ensures
        forall|i: int|
            0 <= i < compact_spec(calls).len() ==> #[trigger] compact_spec(
                calls,
            )[i].vertex_count > 0,
        calls_gapped(compact_spec(calls)),
        calls.len() > 0 ==> compact_spec(calls).len() >= 1 && compact_spec(
            calls,
        )[0].start_vertex == calls[0].start_vertex,
        calls.len() == 0 ==> compact_spec(calls).len() == 0,
{
    if calls.len() > 0 {
        let d = calls[0];
        assert(d.end() <= usize::MAX);
        assert(d.vertex_count > 0);
        let rest = calls.skip(1);
        assert(forall|i: int|
            0 <= i < rest.len() ==> rest[i] == #[trigger] calls[i + 1] && calls[i + 1].end()
                <= usize::MAX && calls[i + 1].vertex_count > 0);
        assert(calls_ordered(rest)) by {
            assert(forall|i: int, j: int|
                #![trigger rest[i], rest[j]]
                0 <= i < j < rest.len() ==> rest[i] == calls[i + 1] && rest[j] == calls[j + 1]
                    && calls[i + 1].end() <= calls[j + 1].start_vertex);
        }
        if rest.len() > 0 {
            assert(d.end() <= calls[1].start_vertex);
            assert(rest[0] == calls[1]);
        }
        lemma_compact_from_gapped(rest, d.start_vertex as int, d.vertex_count as int);
    }
}

/// Law: for each topology of a well-formed frame, the compacted list
/// draws exactly the submitted vertices in submission order, and does so
/// with the fewest draw calls possible — every call draws something and
/// adjacent calls are separated by genuine gaps.
pub proof fn lemma_frame_compaction(s: FrameState)
    requires
        s.wf(),
        s.vertices.len() <= usize::MAX,
    ensures
        drawn_indices(compact_spec(s.triangle_draws)) == drawn_indices(s.triangle_draws),
        drawn_indices(compact_spec(s.line_draws)) == drawn_indices(s.line_draws),
        calls_gapped(compact_spec(s.triangle_draws)),
        calls_gapped(compact_spec(s.line_draws)),
{
    assert(forall|i: int|
        0 <= i < s.triangle_draws.len() ==> #[trigger] s.triangle_draws[i].end() <= usize::MAX);
    assert(forall|i: int|
        0 <= i < s.line_draws.len() ==> #[trigger] s.line_draws[i].end() <= usize::MAX);
    lemma_compact_preserves_drawn(s.triangle_draws);
    lemma_compact_preserves_drawn(s.line_draws);
    lemma_compact_maximal_runs(s.triangle_draws);
    lemma_compact_maximal_runs(s.line_draws);
}

/// Everything a frame's draw needs from the renderer: the vertex-buffer
/// upload payload and the compacted draw-call lists for the two
/// primitive topologies.
pub struct FrameDraw {
    pub vertex_data: Vec<u32>,
    pub triangle_calls: Vec<ImmediateRenderDrawcall>,
    pub line_calls: Vec<ImmediateRenderDrawcall>,
}

/// The words of `vertices` laid out back to back are 8 words per vertex.
proof fn lemma_words_of_len(vertices: Seq<ImmediateRenderVertex>)
    ensures
        words_of(vertices).len() == 8 * vertices.len(),
    decreases vertices.len(),
{
    if vertices.len() > 0 {
        lemma_words_of_len(vertices.drop_last());
    }
}

impl ImmediateRender {
    /// The descriptors, visited in submission order, merged into maximal
    /// contiguous runs: a descriptor that continues the pending run
    /// extends it; any other descriptor flushes the pending run as one
    /// draw call and starts a new one.
    pub fn compact_draw_calls(draws: &Vec<ImmediateRenderDrawcall>) -> (r: Vec<
        ImmediateRenderDrawcall,
    >)
        requires
            forall|i: int| 0 <= i < draws@.len() ==> #[trigger] draws@[i].end() <= usize::MAX,
        ensures
            r@ == compact_spec(draws@),
    {
        let mut compacted: Vec<ImmediateRenderDrawcall> = Vec::new();
        let mut has_run: bool = false;
        let mut run_start: usize = 0;
        let mut run_count: usize = 0;
        let mut idx: usize = 0;
        while idx < draws.len()
            invariant
                idx <= draws@.len(),
                forall|i: int| 0 <= i < draws@.len() ==> #[trigger] draws@[i].end() <= usize::MAX,
                run_start + run_count <= usize::MAX,
                !has_run ==> idx == 0 && compacted@ =~= Seq::<ImmediateRenderDrawcall>::empty(),
                has_run ==> compact_spec(draws@) == compacted@ + compact_from(
                    draws@.skip(idx as int),
                    run_start as int,
                    run_count as int,
                ),
                has_run ==> idx >= 1,
            decreases draws@.len() - idx,
        {
            let d = draws[idx];
            proof {
                assert(draws@.skip(idx as int)[0] == d);
                assert(draws@.skip(idx as int).skip(1) =~= draws@.skip(idx as int + 1));
            }
            if has_run && d.start_vertex == run_start + run_count {
                proof {
                    assert(draws@[idx as int].end() <= usize::MAX);
                }
                run_count = run_count + d.vertex_count;
            } else {
                if has_run && run_count > 0 {
                    let flushed = ImmediateRenderDrawcall {
                        start_vertex: run_start,
                        vertex_count: run_count,
                    };
                    proof {
                        assert(compacted@.push(flushed) =~= compacted@ + seq![flushed]);
                        assert((compacted@ + seq![flushed]) + compact_from(
                            draws@.skip(idx as int + 1),
                            d.start_vertex as int,
                            d.vertex_count as int,
                        ) =~= compacted@ + (seq![flushed] + compact_from(
                            draws@.skip(idx as int + 1),
                            d.start_vertex as int,
                            d.vertex_count as int,
                        )));
                    }
                    compacted.push(flushed);
                }
                run_start = d.start_vertex;
                run_count = d.vertex_count;
                has_run = true;
                proof {
                    assert(draws@[idx as int].end() <= usize::MAX);
                    if idx == 0 {
                        assert(compacted@ + compact_from(
                            draws@.skip(1),
                            d.start_vertex as int,
                            d.vertex_count as int,
                        ) =~= compact_from(
                            draws@.skip(1),
                            d.start_vertex as int,
                            d.vertex_count as int,
                        ));
                    }
                }
            }
            idx = idx + 1;
        }
        proof {
            assert(draws@.skip(draws@.len() as int) =~= Seq::empty());
        }
        if has_run && run_count > 0 {
            let flushed = ImmediateRenderDrawcall { start_vertex: run_start, vertex_count: run_count };
            proof {
                assert(compacted@.push(flushed) =~= compacted@ + seq![flushed]);
            }
            compacted.push(flushed);
        } else {
            proof {
                if has_run {
                    assert(compacted@ + Seq::<ImmediateRenderDrawcall>::empty() =~= compacted@);
                } else {
                    assert(draws@.len() == 0);
                }
            }
        }
        compacted
    }

    /// The frame's vertex list as its upload payload: 8 consecutive
    /// 32-bit words per vertex, position then colour, in draw order.
    pub fn vertex_data_words(&self) -> (w: Vec<u32>)
        ensures
            w@ == words_of(self@.vertices),
            w@.len() == 8 * self@.vertices.len(),
    {
        let mut words: Vec<u32> = Vec::new();
        let mut idx: usize = 0;
        while idx < self.current_vertices.len()
            invariant
                idx <= self@.vertices.len(),
                words@ == words_of(self@.vertices.take(idx as int)),
            decreases self@.vertices.len() - idx,
        {
            let v = self.current_vertices[idx];
            words.push(v.position.x);
            words.push(v.position.y);
            words.push(v.position.z);
            words.push(v.position.w);
            words.push(v.colour.x);
            words.push(v.colour.y);
            words.push(v.colour.z);
            words.push(v.colour.w);
            proof {
                let taken = self@.vertices.take(idx as int + 1);
                assert(taken.drop_last() =~= self@.vertices.take(idx as int));
                assert(taken.last() == self@.vertices[idx as int]);
                assert(words@ =~= words_of(self@.vertices.take(idx as int))
                    + self@.vertices[idx as int].words());
            }
            idx = idx + 1;
        }
        proof {
            assert(self@.vertices.take(self@.vertices.len() as int) =~= self@.vertices);
            lemma_words_of_len(self@.vertices);
        }
        words
    }

    /// How many vertices the current frame holds.
    pub fn vertex_count(&self) -> (n: usize)
        ensures
            n == self@.vertices.len(),
    {
        self.current_vertices.len()
    }

    /// The fixed capacity of the frame's vertex buffer.
    pub fn max_vertex_count(&self) -> (n: u32)
        ensures
            n == self@.max_vertices,
    {
        self.max_vertex_count
    }

    /// Assembles everything the frame's draw needs: the upload payload
    /// for the vertex buffer and the compacted draw-call lists for the
    /// triangle and line topologies. The caller must have kept the frame
    /// within the vertex buffer's capacity. An empty frame yields an
    /// empty payload and no draw calls at all: its draw is a no-op.
    pub fn prepare_draw(&self) -> (f: FrameDraw)
        requires
            self.wf(),
            self@.vertices.len() <= self@.max_vertices,
        ensures
            f.vertex_data@ == words_of(self@.vertices),
            f.vertex_data@.len() == 8 * self@.vertices.len(),
            f.triangle_calls@ == compact_spec(self@.triangle_draws),
            f.line_calls@ == compact_spec(self@.line_draws),
            self@.vertices.len() == 0 ==> f.vertex_data@.len() == 0 && f.triangle_calls@.len()
                == 0 && f.line_calls@.len() == 0,
    {
        let vertex_count = self.current_vertices.len();
        proof {
            assert(forall|i: int|
                0 <= i < self@.triangle_draws.len() ==> #[trigger] self@.triangle_draws[i].end()
                    <= vertex_count);
            assert(forall|i: int|
                0 <= i < self@.line_draws.len() ==> #[trigger] self@.line_draws[i].end()
                    <= vertex_count);
            if vertex_count == 0 {
                lemma_empty_frame_no_calls(self@);
            }
        }
        FrameDraw {
            vertex_data: self.vertex_data_words(),
            triangle_calls: Self::compact_draw_calls(&self.current_triangle_draws),
            line_calls: Self::compact_draw_calls(&self.current_line_draws),
        }
    }
}

} // verus!
