use vstd::prelude::*;

use crate::canvas::{copy_vertices, Shape, Topology};
use crate::vertex::Vertex;

verus! {

/// An open strip of line segments through its vertices, in order.
pub struct PolyLine {
    data: Vec<Vertex>,
}

impl PolyLine {
    pub fn new(vertices: &[Vertex]) -> (r: PolyLine)
        ensures
            r.vertices() == vertices@,
    {
        PolyLine { data: copy_vertices(vertices) }
    }
}

impl Shape for PolyLine {
    closed spec fn vertices(&self) -> Seq<Vertex> {
        self.data@
    }

    open spec fn topology(&self) -> Topology {
        Topology::LineStrip
    }

    fn get_vertices(&self) -> (r: Vec<Vertex>) {
        copy_vertices(self.data.as_slice())
    }

    fn get_primitive_type(&self) -> (r: Topology) {
        Topology::LineStrip
    }
}

} // verus!
