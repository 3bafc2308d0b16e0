use vstd::prelude::*;

use crate::float::{
    between, is_nan, le, lt, spec_le, spec_lt, spec_within, within, within_interval,
};

verus! {

/// The binary32 encoding of `0.0`.
pub const ZERO: u32 = 0x0000_0000;

/// The binary32 encoding of a full turn, `2π` rounded to single precision.
pub const FULL_TURN: u32 = 0x40c9_0fdb;

/// A point of the plane; each coordinate is the bit pattern of a
/// single-precision IEEE 754 number.
#[derive(Clone, Copy, Debug, PartialEq, Eq, Structural)]
pub struct Point {
    pub x: u32,
    pub y: u32,
}

impl Point {
    pub fn new(x: u32, y: u32) -> (p: Point)
        ensures
            p.x == x,
            p.y == y,
    {
        Point { x, y }
    }
}

/// A colour as red, green, blue and alpha channels (premultiplied alpha).
#[derive(Clone, Copy, Debug, PartialEq, Eq, Structural)]
pub struct Color {
    pub r: u8,
    pub g: u8,
    pub b: u8,
    pub a: u8,
}

/// A full circle: centre `pos`, radius `r`.
#[derive(Clone, Copy, Debug, PartialEq, Eq, Structural)]
pub struct CircleData {
    pub pos: Point,
    pub r: u32,
}

/// The infinite line through `p1` and `p2`.
#[derive(Clone, Copy, Debug, PartialEq, Eq, Structural)]
pub struct LineData {
    pub p1: Point,
    pub p2: Point,
}

/// The segment from `p1` to `p2`.
#[derive(Clone, Copy, Debug, PartialEq, Eq, Structural)]
pub struct SegmentData {
    pub p1: Point,
    pub p2: Point,
}

/// The part of the circle about `pos` with radius `r` whose angles run from
/// `start` to `stop`; where `stop < start` the arc passes through angle zero.
#[derive(Clone, Copy, Debug, PartialEq, Eq, Structural)]
pub struct ArcData {
    pub pos: Point,
    pub r: u32,
    pub start: u32,
    pub stop: u32,
}

/// One primitive of a construction.
#[derive(Clone, Copy, Debug, PartialEq, Eq, Structural)]
pub enum Shape {
    Circle(CircleData),
    Line(LineData),
    Segment(SegmentData),
    Arc(ArcData),
}

/// A placed shape with its style and the points where it met the
/// constructions that stood before it when it was added.
#[derive(Clone, Debug)]
pub struct Construction {
    pub shape: Shape,
    pub layer: String,
    pub color: Color,
    pub width: u32,
    pub intersections: Vec<Point>,
}

impl SegmentData {
    /// Whether `p` lies in the box spanned by the endpoints, axis by axis.
    pub open spec fn spans(self, p: Point) -> bool {
        spec_within(p.x, self.p1.x, self.p2.x) && spec_within(p.y, self.p1.y, self.p2.y)
    }

    /// The points of `s` that the segment spans, in their order.
    pub open spec fn kept(self, s: Seq<Point>) -> Seq<Point> {
        s.filter(|p: Point| self.spans(p))
    }

    /// The line that carries the segment.
    pub fn line(&self) -> (l: LineData)
        ensures
            l.p1 == self.p1,
            l.p2 == self.p2,
    {
        LineData { p1: self.p1, p2: self.p2 }
    }

    /// Keeps the points of the carrying line that lie on the segment.
    pub fn valid_points(&self, points: Vec<Point>) -> (valid: Vec<Point>)
        ensures
            valid@ == self.kept(points@),
    {
        let mut valid: Vec<Point> = Vec::new();
        let n = points.len();
        for i in 0..n
            invariant
                n == points@.len(),
                valid@ == self.kept(points@.take(i as int)),
        {
            let point = points[i];
            proof {
                assert(points@.take(i + 1) == points@.take(i as int).push(point));
                points@.take(i as int).lemma_filter_push(point, |p: Point| self.spans(p));
            }
            if within(point.x, self.p1.x, self.p2.x) && within(point.y, self.p1.y, self.p2.y) {
                valid.push(point);
            }
        }
        assert(points@.take(n as int) == points@);
        valid
    }
}

/// Every point that a segment keeps lies, coordinate by coordinate, in the
/// closed interval spanned by the segment's two endpoints; on the number
/// line where the endpoint coordinates are numbers.
pub proof fn kept_points_lie_within_segment(seg: SegmentData, points: Seq<Point>, i: int)
    requires
        0 <= i < seg.kept(points).len(),
    ensures
        spec_within(seg.kept(points)[i].x, seg.p1.x, seg.p2.x),
        spec_within(seg.kept(points)[i].y, seg.p1.y, seg.p2.y),
        !is_nan(seg.p1.x) && !is_nan(seg.p2.x) ==> between(
            seg.kept(points)[i].x,
            seg.p1.x,
            seg.p2.x,
        ),
        !is_nan(seg.p1.y) && !is_nan(seg.p2.y) ==> between(
            seg.kept(points)[i].y,
            seg.p1.y,
            seg.p2.y,
        ),
{
    points.lemma_filter_pred(|p: Point| seg.spans(p), i);
    let q = seg.kept(points)[i];
    if !is_nan(seg.p1.x) && !is_nan(seg.p2.x) {
        within_interval(q.x, seg.p1.x, seg.p2.x);
    }
    if !is_nan(seg.p1.y) && !is_nan(seg.p2.y) {
        within_interval(q.y, seg.p1.y, seg.p2.y);
    }
}

impl ArcData {
    /// Whether an angle about the centre falls on the arc. Where `stop < start`
    /// the arc wraps: the angle is kept from `start` up to a full turn, or
    /// from zero up to `stop`.
    pub open spec fn admits(self, angle: u32) -> bool {
        if spec_lt(self.stop, self.start) {
            (spec_le(self.start, angle) && spec_le(angle, FULL_TURN)) || (spec_le(angle, self.stop)
                && spec_le(ZERO, angle))
        } else {
            spec_le(self.start, angle) && spec_le(angle, self.stop)
        }
    }

    /// The points among the first `n` of `points` whose angle in `angles` the
    /// arc admits, in their order.
    pub open spec fn kept(self, points: Seq<Point>, angles: Seq<u32>, n: nat) -> Seq<Point>
        decreases n,
    {
        if n == 0 {
            Seq::empty()
        } else {
            let before = self.kept(points, angles, (n - 1) as nat);
            if self.admits(angles[n - 1]) {
                before.push(points[n - 1])
            } else {
                before
            }
        }
    }

    /// The full circle that carries the arc.
    pub fn circle(&self) -> (c: CircleData)
        ensures
            c.pos == self.pos,
            c.r == self.r,
    {
        CircleData { pos: self.pos, r: self.r }
    }

    /// Keeps the points of the carrying circle that lie on the arc, given for
    /// each point its angle about the centre (`angles[i]` belongs to
    /// `points[i]`).
    pub fn valid_points(&self, points: Vec<Point>, angles: &Vec<u32>) -> (valid: Vec<Point>)
        requires
            angles@.len() == points@.len(),
        ensures
            valid@ == self.kept(points@, angles@, points@.len()),
    {
        let mut valid: Vec<Point> = Vec::new();
        let n = points.len();
        for i in 0..n
            invariant
                n == points@.len(),
                n == angles@.len(),
                valid@ == self.kept(points@, angles@, i as nat),
        {
            let angle = angles[i];
            let keep = if lt(self.stop, self.start) {
                (le(self.start, angle) && le(angle, FULL_TURN)) || (le(angle, self.stop) && le(
                    ZERO,
                    angle,
                ))
            } else {
                le(self.start, angle) && le(angle, self.stop)
            };
            if keep {
                valid.push(points[i]);
            }
        }
        valid
    }
}

} // verus!
