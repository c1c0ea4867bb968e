use vstd::prelude::*;
use crate::selection::STRIDE;

verus! {

/// Which scalar of a coordinate triple is drawn upward and which one lies
/// along the line of sight, as positions within the triple. The first scalar
/// of the triple always takes part in the rotation.
#[derive(Clone, Copy, Debug, PartialEq, Eq, Structural)]
pub struct Axes {
    pub vertical: usize,
    pub depth: usize,
}

/// The positions in the vertex buffer of the three scalars that the
/// projection of one vertex reads. With `s` and `c` the sine and cosine of
/// the rotation angle, the vertex appears on screen at
/// `(buffer[x] * s + buffer[depth] * c, buffer[vertical])`.
#[derive(Clone, Copy, Debug, PartialEq, Eq, Structural)]
pub struct Source {
    pub x: usize,
    pub vertical: usize,
    pub depth: usize,
}

/// Seen from the side the second scalar is vertical and the third is depth;
/// seen from the top the two change places.
pub open spec fn axes_of(top_down: bool) -> Axes {
    if top_down {
        Axes { vertical: 2, depth: 1 }
    } else {
        Axes { vertical: 1, depth: 2 }
    }
}

/// The buffer positions read for vertex number `vertex`.
pub open spec fn source_at(vertex: int, top_down: bool) -> Source {
    Source {
        x: (STRIDE * vertex) as usize,
        vertical: (STRIDE * vertex + axes_of(top_down).vertical) as usize,
        depth: (STRIDE * vertex + axes_of(top_down).depth) as usize,
    }
}

/// All three positions of `source` lie inside a buffer of `len` scalars.
pub open spec fn in_buffer(source: Source, len: nat) -> bool {
    source.x < len && source.vertical < len && source.depth < len
}

/// The axis assignment of a view.
pub fn axes(top_down: bool) -> (assignment: Axes)
    ensures
        assignment == axes_of(top_down),
{
    if top_down {
        Axes { vertical: 2, depth: 1 }
    } else {
        Axes { vertical: 1, depth: 2 }
    }
}

/// The buffer positions that the projection of vertex number `vertex` reads.
pub fn source(vertex: usize, top_down: bool) -> (source: Source)
    requires
        STRIDE * vertex + 2 <= usize::MAX,
    ensures
        source == source_at(vertex as int, top_down),
        source.x == STRIDE * vertex,
        source.vertical == STRIDE * vertex + axes_of(top_down).vertical,
        source.depth == STRIDE * vertex + axes_of(top_down).depth,
{
    let assignment = axes(top_down);
    let base: usize = STRIDE * vertex;
    Source { x: base, vertical: base + assignment.vertical, depth: base + assignment.depth }
}

/// Changing between the side view and the top view exchanges the vertical
/// and the depth position of every vertex and keeps its rotating position.
pub proof fn lemma_toggle_swaps_vertical_and_depth(vertex: int, top_down: bool)
    ensures
        axes_of(!top_down).vertical == axes_of(top_down).depth,
        axes_of(!top_down).depth == axes_of(top_down).vertical,
        source_at(vertex, !top_down).x == source_at(vertex, top_down).x,
        source_at(vertex, !top_down).vertical == source_at(vertex, top_down).depth,
        source_at(vertex, !top_down).depth == source_at(vertex, top_down).vertical,
{
}

/// For a vertex of a buffer of `len` scalars, the three positions are the
/// three places of its triple: inside the buffer and distinct.
pub proof fn lemma_source_in_buffer(vertex: int, top_down: bool, len: nat)
    requires
        0 <= vertex < len / (STRIDE as nat),
        len <= usize::MAX,
    ensures
        in_buffer(source_at(vertex, top_down), len),
        source_at(vertex, top_down).x == STRIDE * vertex,
        source_at(vertex, top_down).vertical == STRIDE * vertex + axes_of(top_down).vertical,
        source_at(vertex, top_down).depth == STRIDE * vertex + axes_of(top_down).depth,
        source_at(vertex, top_down).vertical != source_at(vertex, top_down).depth,
{
}

} // verus!
