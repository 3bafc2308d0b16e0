use euclid::shapes::{ArcData, CircleData, LineData, Point, SegmentData, Shape};
use euclid::tools::{Arc, Compass, LineSegment, Measures, StraightEdge, Tool};

fn pt(x: f32, y: f32) -> Point {
    Point::new(x.to_bits(), y.to_bits())
}

fn measures(radius: f32, start: f32, stop: f32) -> Measures {
    Measures { radius: radius.to_bits(), start: start.to_bits(), stop: stop.to_bits() }
}

#[test]
fn tools_take_their_point_counts() {
    assert_eq!(Tool::Compass(Compass).num_points(), 2);
    assert_eq!(Tool::StraightEdge(StraightEdge).num_points(), 2);
    assert_eq!(Tool::LineSegment(LineSegment).num_points(), 2);
    assert_eq!(Tool::Arc(Arc).num_points(), 4);
}

#[test]
fn one_prompt_per_point() {
    for tool in [
        Tool::Compass(Compass),
        Tool::StraightEdge(StraightEdge),
        Tool::LineSegment(LineSegment),
        Tool::Arc(Arc),
    ] {
        assert_eq!(tool.instructions().len(), tool.num_points() as usize);
    }
    assert_eq!(Arc.instructions(), vec!["select center", "select radius", "select start", "select end"]);
}

#[test]
fn tool_names() {
    assert_eq!(Tool::Compass(Compass).name(), "compass");
    assert_eq!(Tool::StraightEdge(StraightEdge).name(), "straight edge");
    assert_eq!(Tool::LineSegment(LineSegment).name(), "line segment");
    assert_eq!(Tool::Arc(Arc).name(), "arc");
}

#[test]
fn compass_makes_circle_about_first_point() {
    let points = vec![pt(0.0, 0.0), pt(5.0, 0.0)];
    let shape = Tool::Compass(Compass).get_shape(&points, measures(5.0, 0.0, 0.0));
    assert_eq!(shape, Shape::Circle(CircleData { pos: pt(0.0, 0.0), r: 5.0f32.to_bits() }));
}

#[test]
fn straight_edge_and_segment_take_both_points() {
    let points = vec![pt(-10.0, 0.0), pt(10.0, 0.0)];
    let m = measures(20.0, 0.0, 0.0);
    assert_eq!(
        Tool::StraightEdge(StraightEdge).get_shape(&points, m),
        Shape::Line(LineData { p1: pt(-10.0, 0.0), p2: pt(10.0, 0.0) })
    );
    assert_eq!(
        Tool::LineSegment(LineSegment).get_shape(&points, m),
        Shape::Segment(SegmentData { p1: pt(-10.0, 0.0), p2: pt(10.0, 0.0) })
    );
}

#[test]
fn arc_tool_takes_radius_and_angles() {
    let points = vec![pt(0.0, 0.0), pt(2.0, 0.0), pt(0.0, 1.0), pt(-1.0, 0.0)];
    let shape = Tool::Arc(Arc).get_shape(&points, measures(2.0, 1.5, 3.0));
    assert_eq!(
        shape,
        Shape::Arc(ArcData {
            pos: pt(0.0, 0.0),
            r: 2.0f32.to_bits(),
            start: 1.5f32.to_bits(),
            stop: 3.0f32.to_bits(),
        })
    );
}
