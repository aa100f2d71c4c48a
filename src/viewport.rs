use vstd::prelude::*;

use crate::vertex::{greatest_coord, largest, least_coord, lemma_extent_bounds, smallest, PlotError, Vertex};

verus! {

/// A closed range `[lower, upper]` of model coordinates, with its span kept beside it.
#[derive(Clone, Copy, Debug, PartialEq, Eq, Structural)]
pub struct Interval {
    pub lower: i32,
    pub upper: i32,
    pub span: i64,
}

impl Interval {
    /// `lower` is the smaller end and `span` the distance between the ends.
    pub open spec fn wf(self) -> bool {
        &&& self.lower <= self.upper
        &&& self.span == self.upper - self.lower
    }

    /// The interval whose ends are `a` and `b`, in either order.
    pub open spec fn between(a: i32, b: i32) -> Interval {
        let lower = if a < b { a } else { b };
        let upper = if a < b { b } else { a };
        Interval { lower, upper, span: (upper - lower) as i64 }
    }

    /// The interval between `a` and `b`, whichever of the two is smaller.
    pub fn from_endpoints(a: i32, b: i32) -> (r: Interval)
        ensures
            r.wf(),
            r == Interval::between(a, b),
    {
        let (upper, lower) = if a < b {
            (b, a)
        } else {
            (a, b)
        };
        let span: i64 = upper as i64 - lower as i64;
        Interval { lower, upper, span }
    }
}

/// The rectangle of the data: a domain on the x axis and a range on the y axis.
#[derive(Clone, Copy, Debug, PartialEq, Eq, Structural)]
pub struct ModelSpace {
    pub domain: Interval,
    pub range: Interval,
}

/// The target rectangle on the screen: its lower left corner and its size.
#[derive(Clone, Copy, Debug, PartialEq, Eq, Structural)]
pub struct ScreenSpace {
    pub left: i32,
    pub bottom: i32,
    pub width: i32,
    pub height: i32,
}

impl ScreenSpace {
    /// The normalized device square `[-1, 1] x [-1, 1]`: width 2, height 2, centered at the origin.
    pub fn normalized() -> (r: ScreenSpace)
        ensures
            r == (ScreenSpace { left: -1i32, bottom: -1i32, width: 2, height: 2 }),
    {
        ScreenSpace { left: -1, bottom: -1, width: 2, height: 2 }
    }
}

/// The exact fraction `num / den`.
#[derive(Clone, Copy, Debug, PartialEq, Eq, Structural)]
pub struct Ratio {
    pub num: i128,
    pub den: i128,
}

/// `r` has the value `n / d`.
pub open spec fn has_value(r: Ratio, n: int, d: int) -> bool {
    r.num * d == n * r.den
}

/// The map of one axis, `c -> (scale * c + offset) / denom`.
#[derive(Clone, Copy, Debug, PartialEq, Eq, Structural)]
pub struct AxisMap {
    pub scale: i128,
    pub offset: i128,
    pub denom: i128,
}

pub const SCALE_BOUND: i128 = 0x1_0000_0000;

pub const OFFSET_BOUND: i128 = 0x4_0000_0000_0000_0000;

impl AxisMap {
    /// The bounds under which applying the map cannot overflow.
    pub open spec fn wf(self) -> bool {
        &&& -SCALE_BOUND <= self.scale <= SCALE_BOUND
        &&& -OFFSET_BOUND <= self.offset <= OFFSET_BOUND
        &&& 0 < self.denom <= SCALE_BOUND
    }

    /// The map sends `iv.lower` to `start` and `iv.upper` to `start + len`, linearly.
    pub open spec fn sends(self, iv: Interval, start: int, len: int) -> bool {
        &&& self.scale == len
        &&& self.offset == start * iv.span - len * iv.lower
        &&& self.denom == iv.span
    }

    /// The image of the point `c_num / c_den` is `n / d`.
    pub open spec fn maps_to(self, c_num: int, c_den: int, n: int, d: int) -> bool {
        (self.scale * c_num + self.offset * c_den) * d == n * self.denom * c_den
    }

    /// The image of `c`.
    pub fn apply(&self, c: i32) -> (r: Ratio)
        requires
            self.wf(),
        ensures
            r.num == self.scale * c + self.offset,
            r.den == self.denom,
    {
        proof {
            assert(-SCALE_BOUND * 0x8000_0000 <= self.scale * c <= SCALE_BOUND * 0x8000_0000)
                by (nonlinear_arith)
                requires
                    -SCALE_BOUND <= self.scale <= SCALE_BOUND,
                    -0x8000_0000 <= c <= 0x8000_0000,
            ;
        }
        Ratio { num: self.scale * c as i128 + self.offset, den: self.denom }
    }

    /// The map of an axis that sends `iv` onto `[start, start + len]`.
    fn onto(iv: Interval, start: i32, len: i32) -> (r: AxisMap)
        requires
            iv.wf(),
            iv.span > 0,
        ensures
            r.wf(),
            r.sends(iv, start as int, len as int),
    {
        let span = iv.span as i128;
        proof {
            assert(-0x8000_0000 * 0x1_0000_0000 <= start * span <= 0x8000_0000 * 0x1_0000_0000)
                by (nonlinear_arith)
                requires
                    -0x8000_0000 <= start <= 0x8000_0000,
                    0 <= span <= 0x1_0000_0000,
            ;
            assert(-0x8000_0000 * 0x8000_0000 <= len * iv.lower <= 0x8000_0000 * 0x8000_0000)
                by (nonlinear_arith)
                requires
                    -0x8000_0000 <= len <= 0x8000_0000,
                    -0x8000_0000 <= iv.lower <= 0x8000_0000,
            ;
        }
        AxisMap {
            scale: len as i128,
            offset: start as i128 * span - len as i128 * iv.lower as i128,
            denom: span,
        }
    }
}

/// An axis-aligned affine map from model space to screen space.
#[derive(Clone, Copy, Debug, PartialEq, Eq, Structural)]
pub struct Transform {
    pub x: AxisMap,
    pub y: AxisMap,
}

impl Transform {
    pub open spec fn wf(self) -> bool {
        self.x.wf() && self.y.wf()
    }

    /// The map sends the rectangle `model` onto the rectangle `screen`, corner to corner.
    pub open spec fn sends(self, model: ModelSpace, screen: ScreenSpace) -> bool {
        &&& self.x.sends(model.domain, screen.left as int, screen.width as int)
        &&& self.y.sends(model.range, screen.bottom as int, screen.height as int)
    }

    /// The image of `v` on the screen, as exact fractions.
    pub fn apply(&self, v: Vertex) -> (r: (Ratio, Ratio))
        requires
            self.wf(),
        ensures
            r.0.num == self.x.scale * v.x + self.x.offset,
            r.0.den == self.x.denom,
            r.1.num == self.y.scale * v.y + self.y.offset,
            r.1.den == self.y.denom,
    {
        (self.x.apply(v.x), self.y.apply(v.y))
    }
}

/// The entry in row `i` and column `j` of the homogeneous 3x3 matrix of `t`, row-major.
pub open spec fn matrix_entry(t: Transform, i: int, j: int) -> Ratio {
    if i == 0 && j == 0 {
        Ratio { num: t.x.scale, den: t.x.denom }
    } else if i == 0 && j == 2 {
        Ratio { num: t.x.offset, den: t.x.denom }
    } else if i == 1 && j == 1 {
        Ratio { num: t.y.scale, den: t.y.denom }
    } else if i == 1 && j == 2 {
        Ratio { num: t.y.offset, den: t.y.denom }
    } else if i == 2 && j == 2 {
        Ratio { num: 1, den: 1 }
    } else {
        Ratio { num: 0, den: 1 }
    }
}

/// Holds the transform from the data's rectangle to the screen, fixed when built.
pub struct ViewPort {
    transform: Transform,
}

impl View for ViewPort {
    type V = Transform;

    closed spec fn view(&self) -> Transform {
        self.transform
    }
}

impl ViewPort {
    /// The transform can be applied without overflow.
    #[verifier::type_invariant]
    closed spec fn inv(self) -> bool {
        self.transform.wf()
    }

    /// The viewport that sends `model` onto `screen`; a side of span zero is refused.
    pub fn onto(model: ModelSpace, screen: ScreenSpace) -> (r: Result<ViewPort, PlotError>)
        requires
            model.domain.wf(),
            model.range.wf(),
        ensures
            model.domain.span == 0 || model.range.span == 0 <==> r == Err::<ViewPort, PlotError>(
                PlotError::DegenerateIntervalError,
            ),
            r is Ok || r == Err::<ViewPort, PlotError>(PlotError::DegenerateIntervalError),
            r matches Ok(vp) ==> vp@.sends(model, screen),
    {
        if model.domain.span == 0 || model.range.span == 0 {
            return Err(PlotError::DegenerateIntervalError);
        }
        let x = AxisMap::onto(model.domain, screen.left, screen.width);
        let y = AxisMap::onto(model.range, screen.bottom, screen.height);
        Ok(ViewPort { transform: Transform { x, y } })
    }

    /// The viewport that sends `domain x range` onto the normalized device square.
    pub fn new(domain: Interval, range: Interval) -> (r: Result<ViewPort, PlotError>)
        requires
            domain.wf(),
            range.wf(),
        ensures
            domain.span == 0 || range.span == 0 <==> r == Err::<ViewPort, PlotError>(
                PlotError::DegenerateIntervalError,
            ),
            r is Ok || r == Err::<ViewPort, PlotError>(PlotError::DegenerateIntervalError),
            r matches Ok(vp) ==> vp@.sends(
                ModelSpace { domain, range },
                ScreenSpace { left: -1i32, bottom: -1i32, width: 2, height: 2 },
            ),
    {
        ViewPort::onto(ModelSpace { domain, range }, ScreenSpace::normalized())
    }

    pub fn get_transform(&self) -> (r: Transform)
        ensures
            r == self@,
            r.wf(),
    {
        proof {
            use_type_invariant(self);
        }
        self.transform
    }

    /// The transform as a row-major 3x3 matrix, applied to `[x, y, 1]`.
    pub fn to_gl_array(&self) -> (r: [[Ratio; 3]; 3])
        ensures
            forall|i: int, j: int| 0 <= i < 3 && 0 <= j < 3 ==> r@[i]@[j] == matrix_entry(self@, i, j),
    {
        let t = self.transform;
        let zero = Ratio { num: 0, den: 1 };
        let one = Ratio { num: 1, den: 1 };
        let r = [
            [Ratio { num: t.x.scale, den: t.x.denom }, zero, Ratio { num: t.x.offset, den: t.x.denom }],
            [zero, Ratio { num: t.y.scale, den: t.y.denom }, Ratio { num: t.y.offset, den: t.y.denom }],
            [zero, zero, one],
        ];
        r
    }
}

/// The rectangle spanned by the points of the non-empty `s`.
pub open spec fn data_rect(s: Seq<Vertex>) -> ModelSpace {
    ModelSpace {
        domain: Interval::between(least_coord(s, 0) as i32, greatest_coord(s, 0) as i32),
        range: Interval::between(least_coord(s, 1) as i32, greatest_coord(s, 1) as i32),
    }
}

/// The viewport that sends the rectangle spanned by `vertices` onto the normalized device
/// square. No point, or points that all share an x or all share a y, are refused.
pub fn fit_viewport_to_data(vertices: &[Vertex]) -> (r: Result<ViewPort, PlotError>)
    ensures
        vertices@.len() == 0 <==> r == Err::<ViewPort, PlotError>(PlotError::EmptyInputError),
        vertices@.len() > 0 ==> ((least_coord(vertices@, 0) == greatest_coord(vertices@, 0)
            || least_coord(vertices@, 1) == greatest_coord(vertices@, 1)) <==> r == Err::<
            ViewPort,
            PlotError,
        >(PlotError::DegenerateIntervalError)),
        vertices@.len() > 0 && least_coord(vertices@, 0) != greatest_coord(vertices@, 0)
            && least_coord(vertices@, 1) != greatest_coord(vertices@, 1) ==> r is Ok,
        r matches Ok(vp) ==> vp@.sends(
            data_rect(vertices@),
            ScreenSpace { left: -1i32, bottom: -1i32, width: 2, height: 2 },
        ),
{
    let (x_lo, x_hi, y_lo, y_hi) = match (
        smallest(vertices, 0),
        largest(vertices, 0),
        smallest(vertices, 1),
        largest(vertices, 1),
    ) {
        (Ok(a), Ok(b), Ok(c), Ok(d)) => (a, b, c, d),
        _ => return Err(PlotError::EmptyInputError),
    };
    proof {
        lemma_extent_bounds(vertices@, 0);
        lemma_extent_bounds(vertices@, 1);
    }
    ViewPort::new(Interval::from_endpoints(x_lo, x_hi), Interval::from_endpoints(y_lo, y_hi))
}

/// Fitting a viewport to the same points twice gives the same transform, and so the same
/// matrix.
pub proof fn lemma_fit_is_idempotent(points: Seq<Vertex>, a: ViewPort, b: ViewPort)
    requires
        points.len() > 0,
        a@.sends(data_rect(points), ScreenSpace { left: -1i32, bottom: -1i32, width: 2, height: 2 }),
        b@.sends(data_rect(points), ScreenSpace { left: -1i32, bottom: -1i32, width: 2, height: 2 }),
    ensures
        a@ == b@,
        forall|i: int, j: int| matrix_entry(a@, i, j) == matrix_entry(b@, i, j),
{
}

/// The interval between two ends does not depend on their order, and its span is the
/// distance between them.
pub proof fn lemma_from_endpoints_symmetric(a: i32, b: i32)
    ensures
        Interval::between(a, b) == Interval::between(b, a),
        Interval::between(a, b).span == if a < b { b - a } else { a - b },
{
}

/// A transform that sends a model rectangle onto a screen rectangle sends the lower ends of
/// its domain and range to the screen's lower left corner, the upper ends to the opposite
/// corner, and the midpoints to the screen's center.
pub proof fn lemma_corners_and_center(t: Transform, model: ModelSpace, screen: ScreenSpace)
    requires
        t.sends(model, screen),
        model.domain.wf(),
        model.range.wf(),
    ensures
        t.x.maps_to(model.domain.lower as int, 1, screen.left as int, 1),
        t.x.maps_to(model.domain.upper as int, 1, screen.left + screen.width, 1),
        t.x.maps_to(
            model.domain.lower + model.domain.upper,
            2,
            2 * screen.left + screen.width,
            2,
        ),
        t.y.maps_to(model.range.lower as int, 1, screen.bottom as int, 1),
        t.y.maps_to(model.range.upper as int, 1, screen.bottom + screen.height, 1),
        t.y.maps_to(
            model.range.lower + model.range.upper,
            2,
            2 * screen.bottom + screen.height,
            2,
        ),
{
    lemma_axis_ends(t.x, model.domain, screen.left as int, screen.width as int);
    lemma_axis_ends(t.y, model.range, screen.bottom as int, screen.height as int);
}

proof fn lemma_axis_ends(m: AxisMap, iv: Interval, start: int, len: int)
    requires
        m.sends(iv, start, len),
        iv.wf(),
    ensures
        m.maps_to(iv.lower as int, 1, start, 1),
        m.maps_to(iv.upper as int, 1, start + len, 1),
        m.maps_to(iv.lower + iv.upper, 2, 2 * start + len, 2),
{
    let lo = iv.lower as int;
    let sp = iv.span as int;
    assert(len * lo + (start * sp - len * lo) == start * sp);
    assert(len * (lo + sp) + (start * sp - len * lo) == (start + len) * sp) by (nonlinear_arith);
    assert((len * (lo + (lo + sp)) + (start * sp - len * lo) * 2) * 2 == (2 * start + len) * sp
        * 2) by (nonlinear_arith);
}

} // verus!
