pub mod canvas;
pub mod layer;
pub mod polygon;
pub mod polyline;
pub mod vertex;
pub mod viewport;
