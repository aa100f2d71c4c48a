use glium_tut::canvas::{AnyShape, Canvas2D, DrawCall, Shape, Topology};
use glium_tut::layer::{quit_on_close, should_close, WindowEvent};
use glium_tut::polygon::{Polygon, Rect};
use glium_tut::polyline::PolyLine;
use glium_tut::vertex::{largest, smallest, PlotError, Vertex};
use glium_tut::viewport::{
    fit_viewport_to_data, Interval, ModelSpace, Ratio, ScreenSpace, Transform, ViewPort,
};

fn v(x: i32, y: i32) -> Vertex {
    Vertex { x, y }
}

fn value(r: Ratio) -> (i128, i128) {
    // reduce to lowest terms with a positive denominator
    let mut a = r.num.abs();
    let mut b = r.den.abs();
    while b != 0 {
        let t = a % b;
        a = b;
        b = t;
    }
    let g = if a == 0 { 1 } else { a };
    let sign = if r.den < 0 { -1 } else { 1 };
    (sign * r.num / g, sign * r.den / g)
}

fn image(t: &Transform, p: Vertex) -> ((i128, i128), (i128, i128)) {
    let (x, y) = t.apply(p);
    (value(x), value(y))
}

fn twice_area(a: Vertex, b: Vertex, c: Vertex) -> i64 {
    let (ax, ay) = (a.x as i64, a.y as i64);
    (b.x as i64 - ax) * (c.y as i64 - ay) - (c.x as i64 - ax) * (b.y as i64 - ay)
}

#[test]
fn interval_order_independent() {
    let pairs = [(3, -7), (-7, 3), (0, 0), (i32::MIN, i32::MAX), (5, 5), (-1, -2)];
    for (a, b) in pairs {
        let i = Interval::from_endpoints(a, b);
        let j = Interval::from_endpoints(b, a);
        assert_eq!(i, j);
        assert_eq!(i.span, (a as i64 - b as i64).abs());
        assert!(i.lower <= i.upper);
    }
}

#[test]
fn interval_normalizes_ends() {
    let i = Interval::from_endpoints(10, -10);
    assert_eq!(i, Interval { lower: -10, upper: 10, span: 20 });
}

#[test]
fn extent_bounds_and_members() {
    let pts = vec![v(3, -4), v(-2, 9), v(7, 0), v(0, 0)];
    assert_eq!(smallest(&pts, 0), Ok(-2));
    assert_eq!(largest(&pts, 0), Ok(7));
    assert_eq!(smallest(&pts, 1), Ok(-4));
    assert_eq!(largest(&pts, 1), Ok(9));
    for axis in 0..2usize {
        let lo = smallest(&pts, axis).unwrap();
        let hi = largest(&pts, axis).unwrap();
        assert!(lo <= hi);
        assert!(pts.iter().any(|p| p.component(axis) == lo));
        assert!(pts.iter().any(|p| p.component(axis) == hi));
    }
}

#[test]
fn extent_of_single_point() {
    let pts = vec![v(4, -1)];
    assert_eq!(smallest(&pts, 0), Ok(4));
    assert_eq!(largest(&pts, 0), Ok(4));
    assert_eq!(smallest(&pts, 1), Ok(-1));
    assert_eq!(largest(&pts, 1), Ok(-1));
}

#[test]
fn extent_of_empty_is_error() {
    let pts: Vec<Vertex> = Vec::new();
    assert_eq!(smallest(&pts, 0), Err(PlotError::EmptyInputError));
    assert_eq!(largest(&pts, 1), Err(PlotError::EmptyInputError));
    assert!(matches!(fit_viewport_to_data(&pts), Err(PlotError::EmptyInputError)));
}

#[test]
fn viewport_degenerate_interval_is_error() {
    let zero = Interval::from_endpoints(3, 3);
    let unit = Interval::from_endpoints(0, 1);
    assert!(matches!(ViewPort::new(zero, unit), Err(PlotError::DegenerateIntervalError)));
    assert!(matches!(ViewPort::new(unit, zero), Err(PlotError::DegenerateIntervalError)));
    let flat = vec![v(-1, 2), v(5, 2), v(3, 2)];
    assert!(matches!(fit_viewport_to_data(&flat), Err(PlotError::DegenerateIntervalError)));
}

#[test]
fn viewport_maps_corners_and_center() {
    let vp = ViewPort::new(Interval::from_endpoints(-10, 10), Interval::from_endpoints(-1, 1))
        .unwrap();
    let t = vp.get_transform();
    assert_eq!(image(&t, v(-10, -1)), ((-1, 1), (-1, 1)));
    assert_eq!(image(&t, v(10, 1)), ((1, 1), (1, 1)));
    assert_eq!(image(&t, v(0, 0)), ((0, 1), (0, 1)));
    assert_eq!(image(&t, v(5, 0)), ((1, 2), (0, 1)));
}

#[test]
fn viewport_onto_other_screen() {
    let model = ModelSpace {
        domain: Interval::from_endpoints(0, 4),
        range: Interval::from_endpoints(10, 20),
    };
    let screen = ScreenSpace { left: 100, bottom: 50, width: 8, height: 30 };
    let t = ViewPort::onto(model, screen).unwrap().get_transform();
    assert_eq!(image(&t, v(0, 10)), ((100, 1), (50, 1)));
    assert_eq!(image(&t, v(4, 20)), ((108, 1), (80, 1)));
    assert_eq!(image(&t, v(2, 15)), ((104, 1), (65, 1)));
    assert_eq!(ScreenSpace::normalized(), ScreenSpace { left: -1, bottom: -1, width: 2, height: 2 });
}

#[test]
fn gl_array_is_row_major() {
    let vp = ViewPort::new(Interval::from_endpoints(-10, 10), Interval::from_endpoints(0, 4))
        .unwrap();
    let m = vp.to_gl_array();
    assert_eq!(value(m[0][0]), (1, 10));
    assert_eq!(value(m[0][1]), (0, 1));
    assert_eq!(value(m[0][2]), (0, 1));
    assert_eq!(value(m[1][0]), (0, 1));
    assert_eq!(value(m[1][1]), (1, 2));
    assert_eq!(value(m[1][2]), (-1, 1));
    assert_eq!(value(m[2][0]), (0, 1));
    assert_eq!(value(m[2][1]), (0, 1));
    assert_eq!(value(m[2][2]), (1, 1));
}

#[test]
fn fit_to_data_is_idempotent() {
    let pts = vec![v(-3, 8), v(12, -1), v(4, 4)];
    let a = fit_viewport_to_data(&pts).unwrap();
    let b = fit_viewport_to_data(&pts).unwrap();
    assert_eq!(a.to_gl_array(), b.to_gl_array());
    assert_eq!(a.get_transform(), b.get_transform());
    let t = a.get_transform();
    assert_eq!(image(&t, v(-3, -1)), ((-1, 1), (-1, 1)));
    assert_eq!(image(&t, v(12, 8)), ((1, 1), (1, 1)));
}

#[test]
fn rect_emits_strip_of_corners() {
    // the corners (-2.5, 0.5) and (2.5, -0.5), in tenths
    let r = Rect::new(v(-25, 5), v(25, -5));
    let vs = r.get_vertices();
    assert_eq!(vs, vec![v(-25, -5), v(-25, 5), v(25, -5), v(25, 5)]);
    assert_eq!(r.get_primitive_type(), Topology::TriangleStrip);
    let a1 = twice_area(vs[0], vs[1], vs[2]);
    let a2 = twice_area(vs[1], vs[2], vs[3]);
    assert!(a1 != 0 && a2 != 0);
    assert_eq!(a1.abs() + a2.abs(), 2 * 50 * 10);
    for corner in [v(-25, 5), v(25, 5), v(-25, -5), v(25, -5)] {
        assert!(vs.contains(&corner));
    }
}

#[test]
fn polygon_square_triangulated() {
    let square = vec![v(1, -1), v(1, 1), v(-1, 1), v(-1, -1)];
    let p = Polygon::new(&square, true, &[0, 1, 2, 0, 2, 3]).unwrap();
    let vs = p.get_vertices();
    assert_eq!(vs.len() % 3, 0);
    assert_eq!(vs.len(), 6);
    assert_eq!(p.get_primitive_type(), Topology::TrianglesList);
    let mut sum = 0;
    for t in vs.chunks(3) {
        sum += twice_area(t[0], t[1], t[2]).abs();
    }
    assert_eq!(sum, 2 * 4);
    assert_eq!(vs, vec![v(1, -1), v(1, 1), v(-1, 1), v(1, -1), v(-1, 1), v(-1, -1)]);
}

#[test]
fn polygon_invalid_input_is_error() {
    let square = vec![v(1, -1), v(1, 1), v(-1, 1), v(-1, -1)];
    assert!(matches!(Polygon::new(&square, false, &[0, 1, 2]), Err(PlotError::InvalidPolygonError)));
    assert!(matches!(Polygon::new(&square, true, &[0, 1]), Err(PlotError::InvalidPolygonError)));
    assert!(matches!(Polygon::new(&square, true, &[0, 1, 4]), Err(PlotError::InvalidPolygonError)));
    assert!(matches!(Polygon::new(&square, true, &[]), Err(PlotError::InvalidPolygonError)));
    assert!(matches!(Polygon::new(&square, true, &[0, 1, 2]), Err(PlotError::InvalidPolygonError)));
    assert!(matches!(
        Polygon::new(&square, true, &[0, 1, 2, 0, 2, 4]),
        Err(PlotError::InvalidPolygonError)
    ));
    assert!(matches!(
        Polygon::new(&square, true, &[0, 0, 1, 0, 2, 3]),
        Err(PlotError::InvalidPolygonError)
    ));
    let line = vec![v(0, 0), v(1, 1), v(2, 2)];
    assert!(matches!(Polygon::new(&line, true, &[0, 1, 2]), Err(PlotError::InvalidPolygonError)));
}

#[test]
fn polygon_triangle_and_too_few_corners() {
    let tri = vec![v(0, 0), v(4, 0), v(0, 3)];
    let p = Polygon::new(&tri, true, &[0, 1, 2]).unwrap();
    assert_eq!(p.get_vertices(), tri);
    let pair = vec![v(0, 0), v(4, 0)];
    assert!(Polygon::new(&pair, true, &[]).unwrap().get_vertices().is_empty());
}

#[test]
fn polyline_keeps_vertices() {
    let pts = vec![v(0, 0), v(1, 2), v(3, -1)];
    let l = PolyLine::new(&pts);
    assert_eq!(l.get_vertices(), pts);
    assert_eq!(l.get_primitive_type(), Topology::LineStrip);
}

#[test]
fn canvas_end_to_end() {
    // 1000 samples of sin over [-10, 10], in thousandths
    let n = 1000;
    let samples: Vec<Vertex> = (0..n)
        .map(|i| {
            let x = -10.0 + 20.0 * (i as f64) / (n as f64);
            v((x * 1000.0).round() as i32, (x.sin() * 1000.0).round() as i32)
        })
        .collect();
    let vp = fit_viewport_to_data(&samples).unwrap();
    let line = AnyShape::Line(PolyLine::new(&samples));
    let rect = AnyShape::Rect(Rect::new(v(-2500, 500), v(2500, -500)));
    let canvas = Canvas2D::new(&[line, rect]);
    assert_eq!(canvas.geometry().len(), 2);
    let calls = canvas.draw(&vp);
    let t = vp.get_transform();
    assert_eq!(
        calls,
        vec![
            DrawCall { geometry: 0, vertex_count: 1000, topology: Topology::LineStrip, transform: t },
            DrawCall { geometry: 1, vertex_count: 4, topology: Topology::TriangleStrip, transform: t },
        ]
    );
}

#[test]
fn empty_canvas_draws_nothing() {
    let vp = ViewPort::new(Interval::from_endpoints(0, 1), Interval::from_endpoints(0, 1)).unwrap();
    let canvas = Canvas2D::new(&[]);
    assert!(canvas.draw(&vp).is_empty());
}

#[test]
fn close_event_ends_loop() {
    assert!(quit_on_close(WindowEvent::CloseRequested));
    assert!(!quit_on_close(WindowEvent::Other));
    assert!(!should_close(&[]));
    assert!(!should_close(&[WindowEvent::Other, WindowEvent::Other]));
    assert!(should_close(&[WindowEvent::CloseRequested, WindowEvent::Other]));
    assert!(should_close(&[WindowEvent::Other, WindowEvent::CloseRequested]));
}
