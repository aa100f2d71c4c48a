use vstd::prelude::*;

verus! {

/// A point of the plane, in model space before the transform.
#[derive(Clone, Copy, Debug, PartialEq, Eq, Structural)]
pub struct Vertex {
    pub x: i32,
    pub y: i32,
}

impl Vertex {
    /// The coordinate on axis `index`: 0 for x, 1 for y.
    pub fn component(&self, index: usize) -> (r: i32)
        requires
            index < 2,
        ensures
            r as int == coord(*self, index as int),
    {
        if index == 0 {
            self.x
        } else {
            self.y
        }
    }
}

/// The errors that building a scene can report.
#[derive(Clone, Copy, Debug, PartialEq, Eq, Structural)]
pub enum PlotError {
    /// An extent was asked of a sequence that holds no point.
    EmptyInputError,
    /// A domain or a range of span zero would divide by zero.
    DegenerateIntervalError,
    /// A polygon whose outline crosses itself, or whose triangulation has the wrong number of
    /// triangles, an index past the outline or a triangle of zero area.
    InvalidPolygonError,
}

/// Coordinate `axis` (0 for x, 1 for y) of `v`.
pub open spec fn coord(v: Vertex, axis: int) -> int {
    if axis == 0 {
        v.x as int
    } else {
        v.y as int
    }
}

/// The least coordinate on `axis` over the non-empty `s`.
pub open spec fn least_coord(s: Seq<Vertex>, axis: int) -> int
    decreases s.len(),
{
    if s.len() <= 1 {
        coord(s[0], axis)
    } else {
        let m = least_coord(s.drop_last(), axis);
        let c = coord(s.last(), axis);
        if c < m {
            c
        } else {
            m
        }
    }
}

/// The greatest coordinate on `axis` over the non-empty `s`.
pub open spec fn greatest_coord(s: Seq<Vertex>, axis: int) -> int
    decreases s.len(),
{
    if s.len() <= 1 {
        coord(s[0], axis)
    } else {
        let m = greatest_coord(s.drop_last(), axis);
        let c = coord(s.last(), axis);
        if c > m {
            c
        } else {
            m
        }
    }
}

/// The least and the greatest coordinate of a non-empty sequence are bounds of all its
/// coordinates on that axis, each is the coordinate of one of its points, and so the least
/// is at most the greatest.
pub proof fn lemma_extent_bounds(s: Seq<Vertex>, axis: int)
    requires
        s.len() > 0,
    ensures
        least_coord(s, axis) <= greatest_coord(s, axis),
        forall|i: int| 0 <= i < s.len() ==> least_coord(s, axis) <= #[trigger] coord(s[i], axis),
        forall|i: int| 0 <= i < s.len() ==> #[trigger] coord(s[i], axis) <= greatest_coord(s, axis),
        exists|i: int| 0 <= i < s.len() && coord(s[i], axis) == least_coord(s, axis),
        exists|i: int| 0 <= i < s.len() && coord(s[i], axis) == greatest_coord(s, axis),
    decreases s.len(),
{
    if s.len() == 1 {
        assert(coord(s[0], axis) == least_coord(s, axis));
        assert(coord(s[0], axis) == greatest_coord(s, axis));
    } else {
        let t = s.drop_last();
        lemma_extent_bounds(t, axis);
        assert forall|i: int| 0 <= i < s.len() implies least_coord(s, axis) <= #[trigger] coord(
            s[i],
            axis,
        ) && coord(s[i], axis) <= greatest_coord(s, axis) by {
            if i < s.len() - 1 {
                assert(s[i] == t[i]);
            }
        }
        let i0 = choose|i: int| 0 <= i < t.len() && coord(t[i], axis) == least_coord(t, axis);
        let i1 = choose|i: int| 0 <= i < t.len() && coord(t[i], axis) == greatest_coord(t, axis);
        assert(s[i0] == t[i0]);
        assert(s[i1] == t[i1]);
        assert(coord(s[s.len() - 1], axis) == coord(s.last(), axis));
    }
}

/// The least coordinate on axis `index` (0 for x, 1 for y) over `vertices`.
pub fn smallest(vertices: &[Vertex], index: usize) -> (r: Result<i32, PlotError>)
    requires
        index < 2,
    ensures
        vertices@.len() == 0 <==> r == Err::<i32, PlotError>(PlotError::EmptyInputError),
        vertices@.len() > 0 ==> r == Ok::<i32, PlotError>(
            least_coord(vertices@, index as int) as i32,
        ),
{
    if vertices.len() == 0 {
        return Err(PlotError::EmptyInputError);
    }
    let mut best: i32 = vertices[0].component(index);
    assert(vertices@.take(1).len() == 1);
    let mut i: usize = 1;
    while i < vertices.len()
        invariant
            index < 2,
            1 <= i <= vertices@.len(),
            best == least_coord(vertices@.take(i as int), index as int),
        decreases vertices@.len() - i,
    {
        let c = vertices[i].component(index);
        assert(vertices@.take(i + 1).drop_last() =~= vertices@.take(i as int));
        if c < best {
            best = c;
        }
        i = i + 1;
    }
    assert(vertices@.take(i as int) =~= vertices@);
    Ok(best)
}

/// The greatest coordinate on axis `index` (0 for x, 1 for y) over `vertices`.
pub fn largest(vertices: &[Vertex], index: usize) -> (r: Result<i32, PlotError>)
    requires
        index < 2,
    ensures
        vertices@.len() == 0 <==> r == Err::<i32, PlotError>(PlotError::EmptyInputError),
        vertices@.len() > 0 ==> r == Ok::<i32, PlotError>(
            greatest_coord(vertices@, index as int) as i32,
        ),
{
    if vertices.len() == 0 {
        return Err(PlotError::EmptyInputError);
    }
    let mut best: i32 = vertices[0].component(index);
    assert(vertices@.take(1).len() == 1);
    let mut i: usize = 1;
    while i < vertices.len()
        invariant
            index < 2,
            1 <= i <= vertices@.len(),
            best == greatest_coord(vertices@.take(i as int), index as int),
        decreases vertices@.len() - i,
    {
        let c = vertices[i].component(index);
        assert(vertices@.take(i + 1).drop_last() =~= vertices@.take(i as int));
        if c > best {
            best = c;
        }
        i = i + 1;
    }
    assert(vertices@.take(i as int) =~= vertices@);
    Ok(best)
}

} // verus!
