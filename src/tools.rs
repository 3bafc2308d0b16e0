use vstd::prelude::*;

use crate::shapes::{ArcData, CircleData, LineData, Point, SegmentData, Shape};

verus! {

/// What a tool reads off its buffered points beyond the points themselves,
/// worked out by the caller in single precision: `radius` is the distance from
/// the first point to the second, `start` and `stop` are the angles of the
/// third and fourth points about the first (as `arc_angle` gives them).
#[derive(Clone, Copy, Debug, PartialEq, Eq, Structural)]
pub struct Measures {
    pub radius: u32,
    pub start: u32,
    pub stop: u32,
}

/// Draws a circle: a centre, then a point on the rim.
#[derive(Clone, Copy, Debug, PartialEq, Eq, Structural)]
pub struct Compass;

/// Draws the infinite line through two points.
#[derive(Clone, Copy, Debug, PartialEq, Eq, Structural)]
pub struct StraightEdge;

/// Draws the segment between two points.
#[derive(Clone, Copy, Debug, PartialEq, Eq, Structural)]
pub struct LineSegment;

/// Draws an arc: a centre, a point on the rim, then a start and an end
/// direction.
#[derive(Clone, Copy, Debug, PartialEq, Eq, Structural)]
pub struct Arc;

impl Compass {
    pub fn name(&self) -> (r: &'static str)
        ensures
            r@ == "compass"@,
    {
        "compass"
    }

    pub fn instructions(&self) -> (r: Vec<&'static str>)
        ensures
            r@.len() == 2,
            r@[0]@ == "select center"@,
            r@[1]@ == "select radius"@,
    {
        vec!["select center", "select radius"]
    }

    pub fn num_points(&self) -> (n: u8)
        ensures
            n == 2,
    {
        2
    }

    pub fn get_shape(&self, points: &Vec<Point>, m: Measures) -> (s: Shape)
        requires
            points@.len() >= 2,
        ensures
            s == Shape::Circle(CircleData { pos: points@[0], r: m.radius }),
    {
        Shape::Circle(CircleData { pos: points[0], r: m.radius })
    }
}

impl StraightEdge {
    pub fn name(&self) -> (r: &'static str)
        ensures
            r@ == "straight edge"@,
    {
        "straight edge"
    }

    pub fn instructions(&self) -> (r: Vec<&'static str>)
        ensures
            r@.len() == 2,
            r@[0]@ == "select first point"@,
            r@[1]@ == "select second point"@,
    {
        vec!["select first point", "select second point"]
    }

    pub fn num_points(&self) -> (n: u8)
        ensures
            n == 2,
    {
        2
    }

    pub fn get_shape(&self, points: &Vec<Point>) -> (s: Shape)
        requires
            points@.len() >= 2,
        ensures
            s == Shape::Line(LineData { p1: points@[0], p2: points@[1] }),
    {
        Shape::Line(LineData { p1: points[0], p2: points[1] })
    }
}

impl LineSegment {
    pub fn name(&self) -> (r: &'static str)
        ensures
            r@ == "line segment"@,
    {
        "line segment"
    }

    pub fn instructions(&self) -> (r: Vec<&'static str>)
        ensures
            r@.len() == 2,
            r@[0]@ == "select start"@,
            r@[1]@ == "select end"@,
    {
        vec!["select start", "select end"]
    }

    pub fn num_points(&self) -> (n: u8)
        ensures
            n == 2,
    {
        2
    }

    pub fn get_shape(&self, points: &Vec<Point>) -> (s: Shape)
        requires
            points@.len() >= 2,
        ensures
            s == Shape::Segment(SegmentData { p1: points@[0], p2: points@[1] }),
    {
        Shape::Segment(SegmentData { p1: points[0], p2: points[1] })
    }
}

impl Arc {
    pub fn name(&self) -> (r: &'static str)
        ensures
            r@ == "arc"@,
    {
        "arc"
    }

    pub fn instructions(&self) -> (r: Vec<&'static str>)
        ensures
            r@.len() == 4,
            r@[0]@ == "select center"@,
            r@[1]@ == "select radius"@,
            r@[2]@ == "select start"@,
            r@[3]@ == "select end"@,
    {
        vec!["select center", "select radius", "select start", "select end"]
    }

    pub fn num_points(&self) -> (n: u8)
        ensures
            n == 4,
    {
        4
    }

    pub fn get_shape(&self, points: &Vec<Point>, m: Measures) -> (s: Shape)
        requires
            points@.len() >= 4,
        ensures
            s == Shape::Arc(ArcData { pos: points@[0], r: m.radius, start: m.start, stop: m.stop }),
    {
        Shape::Arc(ArcData { pos: points[0], r: m.radius, start: m.start, stop: m.stop })
    }
}

/// The construction techniques on offer.
#[derive(Clone, Copy, Debug, PartialEq, Eq, Structural)]
pub enum Tool {
    Compass(Compass),
    StraightEdge(StraightEdge),
    LineSegment(LineSegment),
    Arc(Arc),
}

impl Tool {
    /// How many points the tool takes before it yields a shape.
    pub open spec fn spec_num_points(self) -> u8 {
        match self {
            Tool::Arc(_) => 4,
            _ => 2,
        }
    }

    /// The shape that the tool makes of `points` (at least
    /// `spec_num_points()` of them) and what they measure.
    pub open spec fn spec_shape(self, points: Seq<Point>, m: Measures) -> Shape {
        match self {
            Tool::Compass(_) => Shape::Circle(CircleData { pos: points[0], r: m.radius }),
            Tool::StraightEdge(_) => Shape::Line(LineData { p1: points[0], p2: points[1] }),
            Tool::LineSegment(_) => Shape::Segment(SegmentData { p1: points[0], p2: points[1] }),
            Tool::Arc(_) => Shape::Arc(
                ArcData { pos: points[0], r: m.radius, start: m.start, stop: m.stop },
            ),
        }
    }

    pub fn name(&self) -> (r: &'static str)
        ensures
            r@ == match self {
                Tool::Compass(_) => "compass"@,
                Tool::StraightEdge(_) => "straight edge"@,
                Tool::LineSegment(_) => "line segment"@,
                Tool::Arc(_) => "arc"@,
            },
    {
        match self {
            Tool::Compass(t) => t.name(),
            Tool::StraightEdge(t) => t.name(),
            Tool::LineSegment(t) => t.name(),
            Tool::Arc(t) => t.name(),
        }
    }

    /// The prompts for the tool's points, in order.
    pub open spec fn prompts(self) -> Seq<Seq<char>> {
        match self {
            Tool::Compass(_) => seq!["select center"@, "select radius"@],
            Tool::StraightEdge(_) => seq!["select first point"@, "select second point"@],
            Tool::LineSegment(_) => seq!["select start"@, "select end"@],
            Tool::Arc(_) => seq![
                "select center"@,
                "select radius"@,
                "select start"@,
                "select end"@,
            ],
        }
    }

    /// One prompt for each point that the tool takes.
    pub fn instructions(&self) -> (r: Vec<&'static str>)
        ensures
            r@.len() == self.spec_num_points(),
            r@.len() == self.prompts().len(),
            forall|i: int| 0 <= i < r@.len() ==> (#[trigger] r@[i])@ == self.prompts()[i],
    {
        match self {
            Tool::Compass(t) => t.instructions(),
            Tool::StraightEdge(t) => t.instructions(),
            Tool::LineSegment(t) => t.instructions(),
            Tool::Arc(t) => t.instructions(),
        }
    }

    pub fn num_points(&self) -> (n: u8)
        ensures
            n == self.spec_num_points(),
    {
        match self {
            Tool::Compass(t) => t.num_points(),
            Tool::StraightEdge(t) => t.num_points(),
            Tool::LineSegment(t) => t.num_points(),
            Tool::Arc(t) => t.num_points(),
        }
    }

    pub fn get_shape(&self, points: &Vec<Point>, m: Measures) -> (s: Shape)
        requires
            points@.len() >= self.spec_num_points(),
        ensures
            s == self.spec_shape(points@, m),
    {
        match self {
            Tool::Compass(t) => t.get_shape(points, m),
            Tool::StraightEdge(t) => t.get_shape(points),
            Tool::LineSegment(t) => t.get_shape(points),
            Tool::Arc(t) => t.get_shape(points, m),
        }
    }
}

} // verus!
