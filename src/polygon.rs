use vstd::prelude::*;

use crate::canvas::{copy_vertices, Shape, Topology};
use crate::vertex::{PlotError, Vertex};

verus! {

/// Twice the signed area of the triangle `a b c`: positive when it turns counterclockwise.
pub open spec fn twice_area(a: Vertex, b: Vertex, c: Vertex) -> int {
    (b.x - a.x) * (c.y - a.y) - (c.x - a.x) * (b.y - a.y)
}

/// The four corners of the rectangle with opposite corners `tl` and `br`, in the order of a
/// triangle strip: bottom left, top left, bottom right, top right.
pub open spec fn strip_corners(tl: Vertex, br: Vertex) -> Seq<Vertex> {
    seq![
        Vertex { x: tl.x, y: br.y },
        tl,
        br,
        Vertex { x: br.x, y: tl.y },
    ]
}

/// An axis-aligned rectangle, drawn as a strip of two triangles.
pub struct Rect {
    data: Vec<Vertex>,
}

impl Rect {
    pub fn new(top_left: Vertex, bottom_right: Vertex) -> (r: Rect)
        ensures
            r.vertices() == strip_corners(top_left, bottom_right),
    {
        let top_right = Vertex { x: bottom_right.x, y: top_left.y };
        let bottom_left = Vertex { x: top_left.x, y: bottom_right.y };
        let data = vec![bottom_left, top_left, bottom_right, top_right];
        assert(data@ =~= strip_corners(top_left, bottom_right));
        Rect { data }
    }
}

impl Shape for Rect {
    closed spec fn vertices(&self) -> Seq<Vertex> {
        self.data@
    }

    open spec fn topology(&self) -> Topology {
        Topology::TriangleStrip
    }

    fn get_vertices(&self) -> (r: Vec<Vertex>) {
        copy_vertices(self.data.as_slice())
    }

    fn get_primitive_type(&self) -> (r: Topology) {
        Topology::TriangleStrip
    }
}

/// The strip of a rectangle's corners is made of two triangles of opposite turn, each half the
/// rectangle: neither has zero area unless the rectangle has, and together they cover it.
pub proof fn lemma_rect_strip_covers(top_left: Vertex, bottom_right: Vertex)
    ensures
        ({
            let s = strip_corners(top_left, bottom_right);
            let w = bottom_right.x - top_left.x;
            let h = top_left.y - bottom_right.y;
            &&& s.len() == 4
            &&& twice_area(s[0], s[1], s[2]) == -(w * h)
            &&& twice_area(s[1], s[2], s[3]) == w * h
            &&& (w != 0 && h != 0) ==> twice_area(s[0], s[1], s[2]) != 0 && twice_area(
                s[1],
                s[2],
                s[3],
            ) != 0
        }),
{
    let s = strip_corners(top_left, bottom_right);
    let w = bottom_right.x - top_left.x;
    let h = top_left.y - bottom_right.y;
    assert(twice_area(s[0], s[1], s[2]) == -(w * h)) by (nonlinear_arith)
        requires
            s[0] == (Vertex { x: top_left.x, y: bottom_right.y }),
            s[1] == top_left,
            s[2] == bottom_right,
            w == bottom_right.x - top_left.x,
            h == top_left.y - bottom_right.y,
    ;
    assert(twice_area(s[1], s[2], s[3]) == w * h) by (nonlinear_arith)
        requires
            s[1] == top_left,
            s[2] == bottom_right,
            s[3] == (Vertex { x: bottom_right.x, y: top_left.y }),
            w == bottom_right.x - top_left.x,
            h == top_left.y - bottom_right.y,
    ;
    if w != 0 && h != 0 {
        assert(w * h != 0) by (nonlinear_arith)
            requires
                w != 0,
                h != 0,
        ;
    }
}

/// Twice the signed area of triangle `j` of the flat triangle list `v`.
pub open spec fn triangle_area(v: Seq<Vertex>, j: int) -> int {
    twice_area(v[3 * j], v[3 * j + 1], v[3 * j + 2])
}

/// The number of indices in a triangulation of a simple polygon with `n` corners: `n - 2`
/// triangles, none for fewer than three corners.
pub open spec fn triangulation_len(n: int) -> int {
    if n < 3 {
        0
    } else {
        3 * (n - 2)
    }
}

/// The vertices that the indices of `t` pick out of `s`, in order.
pub open spec fn picked(s: Seq<Vertex>, t: Seq<usize>) -> Seq<Vertex> {
    t.map_values(|k: usize| s[k as int])
}

/// `t` triangulates the outline `s`: `s.len() - 2` triples of indices of its corners, none of
/// them a triangle of zero area.
pub open spec fn triangulates(t: Seq<usize>, s: Seq<Vertex>) -> bool {
    &&& t.len() == triangulation_len(s.len() as int)
    &&& forall|k: int| 0 <= k < t.len() ==> #[trigger] t[k] < s.len()
    &&& forall|j: int| 0 <= j < t.len() / 3 ==> #[trigger] triangle_area(picked(s, t), j) != 0
}

/// Twice the signed area of the triangle `a b c`.
fn twice_area_of(a: Vertex, b: Vertex, c: Vertex) -> (r: i128)
    ensures
        r == twice_area(a, b, c),
{
    let ux = b.x as i128 - a.x as i128;
    let uy = b.y as i128 - a.y as i128;
    let vx = c.x as i128 - a.x as i128;
    let vy = c.y as i128 - a.y as i128;
    proof {
        assert(-0x1_0000_0000 * 0x1_0000_0000 <= ux * vy <= 0x1_0000_0000 * 0x1_0000_0000)
            by (nonlinear_arith)
            requires
                -0x1_0000_0000 <= ux <= 0x1_0000_0000,
                -0x1_0000_0000 <= vy <= 0x1_0000_0000,
        ;
        assert(-0x1_0000_0000 * 0x1_0000_0000 <= vx * uy <= 0x1_0000_0000 * 0x1_0000_0000)
            by (nonlinear_arith)
            requires
                -0x1_0000_0000 <= vx <= 0x1_0000_0000,
                -0x1_0000_0000 <= uy <= 0x1_0000_0000,
        ;
    }
    ux * vy - vx * uy
}

/// A polygon, drawn as a list of triangles whose vertices are copied out of its outline.
pub struct Polygon {
    data: Vec<Vertex>,
}

impl Polygon {
    /// The polygon with outline `vertices`, drawn along `triangulation`: triples of indices
    /// into `vertices`. An outline that is not simple is refused, and so is a triangulation
    /// with another count than `n - 2` triangles for `n` corners, an index past the outline,
    /// or a triangle of zero area.
    pub fn new(vertices: &[Vertex], simple: bool, triangulation: &[usize]) -> (r: Result<
        Polygon,
        PlotError,
    >)
        ensures
            simple && triangulates(triangulation@, vertices@) <==> r is Ok,
            r is Ok || r == Err::<Polygon, PlotError>(PlotError::InvalidPolygonError),
            r matches Ok(p) ==> p.vertices() == picked(vertices@, triangulation@),
            r matches Ok(p) ==> p.vertices().len() % 3 == 0 && forall|j: int|
                0 <= j < p.vertices().len() / 3 ==> #[trigger] triangle_area(p.vertices(), j)
                    != 0,
    {
        let n = vertices.len();
        let count_ok = if n < 3 {
            triangulation.len() == 0
        } else {
            triangulation.len() % 3 == 0 && triangulation.len() / 3 == n - 2
        };
        if !simple || !count_ok {
            return Err(PlotError::InvalidPolygonError);
        }
        let ghost t = triangulation@;
        let ghost s = vertices@;
        assert(t.len() == triangulation_len(s.len() as int));
        let mut data: Vec<Vertex> = Vec::new();
        let mut i: usize = 0;
        while i < triangulation.len()
            invariant
                i <= t.len(),
                i % 3 == 0,
                t == triangulation@,
                s == vertices@,
                n == s.len(),
                t.len() % 3 == 0,
                t.len() == triangulation_len(s.len() as int),
                forall|k: int| 0 <= k < i ==> #[trigger] t[k] < s.len(),
                data@ == picked(s, t.take(i as int)),
                forall|j: int| 0 <= j < i / 3 ==> #[trigger] triangle_area(data@, j) != 0,
            decreases t.len() - i,
        {
            assert(i + 3 <= t.len()) by (nonlinear_arith)
                requires
                    i < t.len(),
                    i % 3 == 0,
                    t.len() % 3 == 0,
            ;
            let a = triangulation[i];
            let b = triangulation[i + 1];
            let c = triangulation[i + 2];
            assert(a == t[i as int]);
            assert(b == t[i + 1]);
            assert(c == t[i + 2]);
            assert(n == s.len());
            if a >= n || b >= n || c >= n {
                proof {
                    assert(!triangulates(t, s)) by {
                        if a >= n {
                            assert(t[i as int] >= s.len());
                        } else if b >= n {
                            assert(t[i + 1] >= s.len());
                        } else {
                            assert(t[i + 2] >= s.len());
                        }
                    }
                }
                return Err(PlotError::InvalidPolygonError);
            }
            let area = twice_area_of(vertices[a], vertices[b], vertices[c]);
            let ghost old_data = data@;
            data.push(vertices[a]);
            data.push(vertices[b]);
            data.push(vertices[c]);
            let ghost j = i / 3;
            assert(picked(s, t.take(i + 3)) =~= picked(s, t.take(i as int)) + seq![
                s[a as int],
                s[b as int],
                s[c as int],
            ]);
            assert(triangle_area(data@, j as int) == area);
            assert forall|jj: int| 0 <= jj < j implies triangle_area(data@, jj)
                == triangle_area(old_data, jj) by {
                assert(data@[3 * jj] == old_data[3 * jj]);
                assert(data@[3 * jj + 1] == old_data[3 * jj + 1]);
                assert(data@[3 * jj + 2] == old_data[3 * jj + 2]);
            }
            if area == 0 {
                proof {
                    assert(picked(s, t).take(i + 3) =~= picked(s, t.take(i + 3)));
                    assert(triangle_area(picked(s, t), j as int) == triangle_area(
                        picked(s, t.take(i + 3)),
                        j as int,
                    ));
                }
                return Err(PlotError::InvalidPolygonError);
            }
            assert((i + 3) / 3 == j + 1);
            assert forall|jj: int| 0 <= jj < j + 1 implies #[trigger] triangle_area(data@, jj)
                != 0 by {
                if jj < j {
                    assert(triangle_area(data@, jj) == triangle_area(old_data, jj));
                    assert(triangle_area(old_data, jj) != 0);
                }
            }
            i = i + 3;
        }
        proof {
            assert(t.take(i as int) =~= t);
        }
        Ok(Polygon { data })
    }
}

impl Shape for Polygon {
    closed spec fn vertices(&self) -> Seq<Vertex> {
        self.data@
    }

    open spec fn topology(&self) -> Topology {
        Topology::TrianglesList
    }

    fn get_vertices(&self) -> (r: Vec<Vertex>) {
        copy_vertices(self.data.as_slice())
    }

    fn get_primitive_type(&self) -> (r: Topology) {
        Topology::TrianglesList
    }
}

} // verus!
