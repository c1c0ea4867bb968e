use vstd::prelude::*;
use crate::mesh::mesh_ok;
use crate::projection::{in_buffer, source, source_at, Source};
use crate::selection::{StateList, STRIDE};

verus! {

/// The colour of a primitive: white for the mesh, yellow for the selection.
#[derive(Clone, Copy, Debug, PartialEq, Eq, Structural)]
pub enum Color {
    White,
    Yellow,
}

/// A vertex to draw as a dot.
#[derive(Clone, Copy, Debug, PartialEq, Eq, Structural)]
pub struct Point {
    pub at: Source,
    pub color: Color,
}

/// An edge to draw as a straight line between two vertices.
#[derive(Clone, Copy, Debug, PartialEq, Eq, Structural)]
pub struct Segment {
    pub from: Source,
    pub to: Source,
    pub color: Color,
}

/// The dot of vertex number `vertex`.
pub open spec fn point_at(vertex: int, top_down: bool, color: Color) -> Point {
    Point { at: source_at(vertex, top_down), color }
}

/// One white dot for each of `count` vertices, in buffer order.
pub open spec fn base_points(count: nat, top_down: bool) -> Seq<Point> {
    Seq::new(count, |v: int| point_at(v, top_down, Color::White))
}

/// The yellow dot of the selected vertex, if one is selected.
pub open spec fn overlay_points(cursor: Option<nat>, top_down: bool) -> Seq<Point> {
    match cursor {
        Some(v) => seq![point_at(v as int, top_down, Color::Yellow)],
        None => Seq::empty(),
    }
}

/// What the dot view draws: the white dots, then the selection over them.
pub open spec fn points_of(count: nat, cursor: Option<nat>, top_down: bool) -> Seq<Point> {
    base_points(count, top_down) + overlay_points(cursor, top_down)
}

/// The position in the index buffer of the corner that follows the corner at
/// position `i` around its face: the next position, and from the third corner
/// of a face back to its first.
pub open spec fn following_corner(i: int) -> int {
    if i % 3 == 2 {
        i - 2
    } else {
        i + 1
    }
}

/// The edge that leaves the corner at position `i` of the index buffer.
pub open spec fn edge_at(indices: Seq<u32>, i: int, top_down: bool, color: Color) -> Segment {
    Segment {
        from: source_at(indices[i] as int, top_down),
        to: source_at(indices[following_corner(i)] as int, top_down),
        color,
    }
}

/// One white edge for each corner of each face, in buffer order.
pub open spec fn base_segments(indices: Seq<u32>, top_down: bool) -> Seq<Segment> {
    Seq::new(indices.len(), |i: int| edge_at(indices, i, top_down, Color::White))
}

/// The three edges of the selected face in yellow, if a face is selected.
pub open spec fn overlay_segments(indices: Seq<u32>, cursor: Option<nat>, top_down: bool) -> Seq<
    Segment,
> {
    match cursor {
        Some(face) => Seq::new(
            STRIDE as nat,
            |k: int| edge_at(indices, STRIDE * face + k, top_down, Color::Yellow),
        ),
        None => Seq::empty(),
    }
}

/// What the wireframe view draws: the white edges, then the selection over
/// them.
pub open spec fn segments_of(indices: Seq<u32>, cursor: Option<nat>, top_down: bool) -> Seq<
    Segment,
> {
    base_segments(indices, top_down) + overlay_segments(indices, cursor, top_down)
}

/// Both ends of every segment read inside a buffer of `len` scalars.
pub open spec fn segments_in_buffer(segments: Seq<Segment>, len: nat) -> bool {
    forall|k: int|
        0 <= k < segments.len() ==> in_buffer((#[trigger] segments[k]).from, len) && in_buffer(
            segments[k].to,
            len,
        )
}

/// Every point reads inside a buffer of `len` scalars.
pub open spec fn points_in_buffer(points: Seq<Point>, len: nat) -> bool {
    forall|k: int| 0 <= k < points.len() ==> in_buffer((#[trigger] points[k]).at, len)
}

/// The dot view of a vertex list: every vertex as a white dot, in buffer
/// order, followed by the selected vertex as a yellow dot.
pub fn dot_render<V>(vertices: &StateList<V>, top_down: bool) -> (points: Vec<Point>)
    ensures
        points@ == points_of(vertices.item_count(), vertices.cursor(), top_down),
        points_in_buffer(points@, vertices@.len()),
{
    let count: usize = vertices.len();
    let ghost len = vertices@.len();
    let mut points: Vec<Point> = Vec::new();
    let mut vertex: usize = 0;
    while vertex < count
        invariant
            vertex <= count,
            count == len / (STRIDE as nat),
            len <= usize::MAX,
            points@ == base_points(vertex as nat, top_down),
            points_in_buffer(points@, len),
        decreases count - vertex,
    {
        let ghost before = points@;
        points.push(Point { at: source(vertex, top_down), color: Color::White });
        proof {
            assert(points@ =~= base_points((vertex + 1) as nat, top_down));
            assert forall|k: int| 0 <= k < points@.len() implies in_buffer(
                (#[trigger] points@[k]).at,
                len,
            ) by {
                if k < before.len() {
                    assert(points@[k] == before[k]);
                }
            }
        }
        vertex += 1;
    }
    let ghost base = points@;
    match vertices.selected() {
        Some(chosen) => {
            points.push(Point { at: source(chosen, top_down), color: Color::Yellow });
            proof {
                assert(points@ =~= points_of(vertices.item_count(), vertices.cursor(), top_down));
                assert forall|k: int| 0 <= k < points@.len() implies in_buffer(
                    (#[trigger] points@[k]).at,
                    len,
                ) by {
                    if k < base.len() {
                        assert(points@[k] == base[k]);
                    }
                }
            }
        },
        None => {
            proof {
                assert(points@ =~= points_of(vertices.item_count(), vertices.cursor(), top_down));
            }
        },
    }
    points
}

/// The corner that follows the corner at position `i` around its face.
fn corner_after(i: usize) -> (j: usize)
    requires
        i % 3 == 2 || i < usize::MAX,
    ensures
        j == following_corner(i as int),
{
    if i % 3 == 2 {
        i - 2
    } else {
        i + 1
    }
}

/// The edge that leaves the corner at position `i` of the index buffer.
fn edge(indices: &Vec<u32>, i: usize, top_down: bool, color: Color, Ghost(len): Ghost<nat>) -> (segment:
    Segment)
    requires
        len <= usize::MAX,
        mesh_ok(len, indices@),
        i < indices@.len(),
    ensures
        segment == edge_at(indices@, i as int, top_down, color),
        in_buffer(segment.from, len),
        in_buffer(segment.to, len),
{
    let _corners: usize = indices.len();
    let j: usize = corner_after(i);
    let a: u32 = indices[i];
    let b: u32 = indices[j];
    Segment { from: source(a as usize, top_down), to: source(b as usize, top_down), color }
}

/// The wireframe view of a mesh: for every face its three edges in white,
/// each corner joined to the one that follows it around the face, in buffer
/// order; then the three edges of the selected face once more, in yellow.
pub fn line_render<V>(vertices: &StateList<V>, faces: &StateList<u32>, top_down: bool) -> (segments:
    Vec<Segment>)
    requires
        mesh_ok(vertices@.len(), faces@),
    ensures
        segments@ == segments_of(faces@, faces.cursor(), top_down),
        segments_in_buffer(segments@, vertices@.len()),
{
    let ghost len = vertices@.len();
    let _vertex_count: usize = vertices.len();
    let indices: &Vec<u32> = faces.items();
    let mut segments: Vec<Segment> = Vec::new();
    let mut i: usize = 0;
    while i < indices.len()
        invariant
            i <= indices.len(),
            len <= usize::MAX,
            mesh_ok(len, indices@),
            segments@ == base_segments(indices@, top_down).take(i as int),
            segments_in_buffer(segments@, len),
        decreases indices.len() - i,
    {
        let ghost before = segments@;
        segments.push(edge(indices, i, top_down, Color::White, Ghost(len)));
        proof {
            assert(segments@ =~= base_segments(indices@, top_down).take(i + 1));
            assert forall|k: int| 0 <= k < segments@.len() implies in_buffer(
                (#[trigger] segments@[k]).from,
                len,
            ) && in_buffer(segments@[k].to, len) by {
                if k < before.len() {
                    assert(segments@[k] == before[k]);
                }
            }
        }
        i += 1;
    }
    proof {
        assert(segments@ =~= base_segments(indices@, top_down));
    }
    match faces.selected() {
        Some(face) => {
            let first: usize = STRIDE * face;
            let mut k: usize = 0;
            while k < STRIDE
                invariant
                    k <= STRIDE,
                    len <= usize::MAX,
                    mesh_ok(len, indices@),
                    first == STRIDE * face,
                    indices@.len() <= usize::MAX,
                    face < indices@.len() / (STRIDE as nat),
                    segments@ == base_segments(indices@, top_down) + overlay_segments(
                        indices@,
                        Some(face as nat),
                        top_down,
                    ).take(k as int),
                    segments_in_buffer(segments@, len),
                decreases STRIDE - k,
            {
                let ghost before = segments@;
                segments.push(edge(indices, first + k, top_down, Color::Yellow, Ghost(len)));
                proof {
                    assert(segments@ =~= base_segments(indices@, top_down) + overlay_segments(
                        indices@,
                        Some(face as nat),
                        top_down,
                    ).take(k + 1));
                    assert forall|m: int| 0 <= m < segments@.len() implies in_buffer(
                        (#[trigger] segments@[m]).from,
                        len,
                    ) && in_buffer(segments@[m].to, len) by {
                        if m < before.len() {
                            assert(segments@[m] == before[m]);
                        }
                    }
                }
                k += 1;
            }
            proof {
                assert(segments@ =~= segments_of(faces@, faces.cursor(), top_down));
            }
        },
        None => {
            proof {
                assert(segments@ =~= segments_of(faces@, faces.cursor(), top_down));
            }
        },
    }
    segments
}

/// The selection is drawn over the mesh: each yellow edge of the selected
/// face has the same two ends as the white edge of the same corner, and of
/// the segments drawn the white ones come first, one for each corner, and the
/// three yellow ones last.
pub proof fn lemma_overlay_matches_base(indices: Seq<u32>, face: nat, top_down: bool, k: int)
    requires
        indices.len() % (STRIDE as nat) == 0,
        face < indices.len() / (STRIDE as nat),
        0 <= k < STRIDE,
    ensures
        segments_of(indices, Some(face), top_down).len() == indices.len() + STRIDE,
        segments_of(indices, Some(face), top_down)[indices.len() + k].color == Color::Yellow,
        segments_of(indices, Some(face), top_down)[STRIDE * face + k].color == Color::White,
        segments_of(indices, Some(face), top_down)[indices.len() + k].from == segments_of(
            indices,
            Some(face),
            top_down,
        )[STRIDE * face + k].from,
        segments_of(indices, Some(face), top_down)[indices.len() + k].to == segments_of(
            indices,
            Some(face),
            top_down,
        )[STRIDE * face + k].to,
{
}

/// A mesh without faces draws no segment and a mesh without vertices no
/// point; neither is an error.
pub proof fn lemma_empty_mesh_draws_nothing(top_down: bool)
    ensures
        segments_of(Seq::<u32>::empty(), None, top_down).len() == 0,
        points_of(0, None, top_down).len() == 0,
{
}

} // verus!
