//! Debug lines and the vertex list the window draws them from.
//!
//! The coordinates and colour channels are of a scalar type `T` that the
//! library only moves around, so the same layout serves whatever number
//! type the renderer uses.
use vstd::prelude::*;

verus! {

/// A line segment to draw: its two end points and an RGBA colour.
#[derive(Debug, PartialEq)]
pub struct DebugLine<T> {
    pub point1: (T, T, T),
    pub point2: (T, T, T),
    pub color: (T, T, T, T),
}

/// A vertex of the line list: a position and an RGB colour.
#[derive(Debug, PartialEq)]
pub struct Vertex<T> {
    pub position: [T; 3],
    pub color: [T; 3],
}

impl<T: Copy> Clone for DebugLine<T> {
    fn clone(&self) -> (line: Self)
        ensures
            line == *self,
    {
        DebugLine { point1: self.point1, point2: self.point2, color: self.color }
    }
}

impl<T: Copy> Copy for DebugLine<T> {

}

/// The vertex at `point`, coloured with the RGB channels of `color` (the
/// alpha channel is dropped).
pub open spec fn vertex_at<T>(point: (T, T, T), color: (T, T, T, T)) -> Vertex<T> {
    Vertex { position: [point.0, point.1, point.2], color: [color.0, color.1, color.2] }
}

/// A vertex built from a point and a colour sits exactly at that point and
/// carries the red, green and blue channels of the colour, in that order;
/// the alpha channel is not part of it.
pub proof fn lemma_vertex_at_point_and_rgb<T>(point: (T, T, T), color: (T, T, T, T))
    ensures
        vertex_at(point, color).position@ == seq![point.0, point.1, point.2],
        vertex_at(point, color).color@ == seq![color.0, color.1, color.2],
{
    assert(vertex_at(point, color).position@ =~= seq![point.0, point.1, point.2]);
    assert(vertex_at(point, color).color@ =~= seq![color.0, color.1, color.2]);
}

fn make_vertex<T: Copy>(point: (T, T, T), color: (T, T, T, T)) -> (v: Vertex<T>)
    ensures
        v == vertex_at(point, color),
{
    Vertex { position: [point.0, point.1, point.2], color: [color.0, color.1, color.2] }
}

/// The vertex list for `lines`: two vertices per line, its first point then
/// its second, in the order of the lines. `None` when there are no lines,
/// in which case the window keeps drawing its previous vertex list.
pub fn debug_lines_to_vertices<T: Copy>(lines: &Vec<DebugLine<T>>) -> (vertices: Option<
    Vec<Vertex<T>>,
>)
    ensures
        lines@.len() == 0 <==> vertices is None,
        vertices matches Some(v) ==> {
            &&& v@.len() == 2 * lines@.len()
            &&& forall|i: int|
                0 <= i < lines@.len() ==> {
                    &&& #[trigger] v@[2 * i] == vertex_at(lines@[i].point1, lines@[i].color)
                    &&& v@[2 * i + 1] == vertex_at(lines@[i].point2, lines@[i].color)
                }
        },
{
    if lines.len() == 0 {
        return None;
    }
    let mut vertices: Vec<Vertex<T>> = Vec::new();
    let mut k: usize = 0;
    while k < lines.len()
        invariant
            k <= lines@.len(),
            vertices@.len() == 2 * k,
            forall|i: int|
                0 <= i < k ==> {
                    &&& #[trigger] vertices@[2 * i] == vertex_at(lines@[i].point1, lines@[i].color)
                    &&& vertices@[2 * i + 1] == vertex_at(lines@[i].point2, lines@[i].color)
                },
        decreases lines@.len() - k,
    {
        let line = &lines[k];
        vertices.push(make_vertex(line.point1, line.color));
        vertices.push(make_vertex(line.point2, line.color));
        k = k + 1;
    }
    Some(vertices)
}

} // verus!
