use vstd::prelude::*;

use crate::polygon::{Polygon, Rect};
use crate::polyline::PolyLine;
use crate::vertex::Vertex;
use crate::viewport::{Transform, ViewPort};

verus! {

/// How a sequence of vertices is read as geometry.
#[derive(Clone, Copy, Debug, PartialEq, Eq, Structural)]
pub enum Topology {
    LineStrip,
    TrianglesList,
    TriangleStrip,
}

/// A geometric primitive: a sequence of vertices and the way to read it.
pub trait Shape {
    spec fn vertices(&self) -> Seq<Vertex>;

    spec fn topology(&self) -> Topology;

    fn get_vertices(&self) -> (r: Vec<Vertex>)
        ensures
            r@ == self.vertices(),
    ;

    fn get_primitive_type(&self) -> (r: Topology)
        ensures
            r == self.topology(),
    ;
}

/// A fresh vector holding the vertices of `v`, in order.
pub(crate) fn copy_vertices(v: &[Vertex]) -> (r: Vec<Vertex>)
    ensures
        r@ == v@,
{
    let mut r: Vec<Vertex> = Vec::new();
    let mut i: usize = 0;
    while i < v.len()
        invariant
            i <= v@.len(),
            r@ == v@.take(i as int),
        decreases v@.len() - i,
    {
        r.push(v[i]);
        i = i + 1;
        assert(r@ =~= v@.take(i as int));
    }
    assert(v@.take(i as int) =~= v@);
    r
}

/// Any of the library's primitives.
pub enum AnyShape {
    Line(PolyLine),
    Rect(Rect),
    Polygon(Polygon),
}

impl Shape for AnyShape {
    open spec fn vertices(&self) -> Seq<Vertex> {
        match self {
            AnyShape::Line(s) => s.vertices(),
            AnyShape::Rect(s) => s.vertices(),
            AnyShape::Polygon(s) => s.vertices(),
        }
    }

    open spec fn topology(&self) -> Topology {
        match self {
            AnyShape::Line(s) => s.topology(),
            AnyShape::Rect(s) => s.topology(),
            AnyShape::Polygon(s) => s.topology(),
        }
    }

    fn get_vertices(&self) -> (r: Vec<Vertex>) {
        match self {
            AnyShape::Line(s) => s.get_vertices(),
            AnyShape::Rect(s) => s.get_vertices(),
            AnyShape::Polygon(s) => s.get_vertices(),
        }
    }

    fn get_primitive_type(&self) -> (r: Topology) {
        match self {
            AnyShape::Line(s) => s.get_primitive_type(),
            AnyShape::Rect(s) => s.get_primitive_type(),
            AnyShape::Polygon(s) => s.get_primitive_type(),
        }
    }
}

/// The geometry of one shape, baked into a canvas.
pub struct Geometry {
    pub vertices: Vec<Vertex>,
    pub topology: Topology,
}

/// One draw call: the geometry at index `geometry` of the canvas, with its vertex count and
/// topology, drawn under `transform`.
#[derive(Clone, Copy, Debug, PartialEq, Eq, Structural)]
pub struct DrawCall {
    pub geometry: usize,
    pub vertex_count: usize,
    pub topology: Topology,
    pub transform: Transform,
}

/// Shapes baked into geometry at construction, drawn in the order they were given.
pub struct Canvas2D {
    geometry: Vec<Geometry>,
}

impl View for Canvas2D {
    type V = Seq<Geometry>;

    closed spec fn view(&self) -> Seq<Geometry> {
        self.geometry@
    }
}

/// The geometry at `g` holds the vertices and topology of the shape `s`.
pub open spec fn bakes(g: Geometry, s: AnyShape) -> bool {
    g.vertices@ == s.vertices() && g.topology == s.topology()
}

impl Canvas2D {
    /// Bakes each of `shapes`, in order.
    pub fn new(shapes: &[AnyShape]) -> (r: Canvas2D)
        ensures
            r@.len() == shapes@.len(),
            forall|i: int| 0 <= i < shapes@.len() ==> bakes(#[trigger] r@[i], shapes@[i]),
    {
        let mut geometry: Vec<Geometry> = Vec::new();
        let mut i: usize = 0;
        while i < shapes.len()
            invariant
                i <= shapes@.len(),
                geometry@.len() == i,
                forall|j: int| 0 <= j < i ==> bakes(#[trigger] geometry@[j], shapes@[j]),
            decreases shapes@.len() - i,
        {
            let shape = &shapes[i];
            geometry.push(
                Geometry { vertices: shape.get_vertices(), topology: shape.get_primitive_type() },
            );
            i = i + 1;
        }
        Canvas2D { geometry }
    }

    /// The baked geometry, in the order of the shapes.
    pub fn geometry(&self) -> (r: &Vec<Geometry>)
        ensures
            r@ == self@,
    {
        &self.geometry
    }

    /// One draw call per baked geometry, in order, each under the transform of `vp`.
    pub fn draw(&self, vp: &ViewPort) -> (r: Vec<DrawCall>)
        ensures
            r@.len() == self@.len(),
            forall|i: int|
                0 <= i < self@.len() ==> #[trigger] r@[i] == (DrawCall {
                    geometry: i as usize,
                    vertex_count: self@[i].vertices@.len() as usize,
                    topology: self@[i].topology,
                    transform: vp@,
                }),
    {
        let transform = vp.get_transform();
        let mut calls: Vec<DrawCall> = Vec::new();
        let mut i: usize = 0;
        while i < self.geometry.len()
            invariant
                i <= self@.len(),
                transform == vp@,
                calls@.len() == i,
                forall|j: int|
                    0 <= j < i ==> #[trigger] calls@[j] == (DrawCall {
                        geometry: j as usize,
                        vertex_count: self@[j].vertices@.len() as usize,
                        topology: self@[j].topology,
                        transform: vp@,
                    }),
            decreases self@.len() - i,
        {
            let g = &self.geometry[i];
            calls.push(
                DrawCall {
                    geometry: i,
                    vertex_count: g.vertices.len(),
                    topology: g.topology,
                    transform,
                },
            );
            i = i + 1;
        }
        calls
    }
}

} // verus!
