use euclid::float::{eq, le, lt, max, min, within};
use euclid::shapes::{ArcData, CircleData, LineData, Point, SegmentData, FULL_TURN, ZERO};

fn pt(x: f32, y: f32) -> Point {
    Point::new(x.to_bits(), y.to_bits())
}

#[test]
fn comparisons_follow_single_precision_order() {
    let pairs: [(f32, f32); 9] = [
        (1.0, 2.0),
        (2.0, 1.0),
        (-1.0, 1.0),
        (-3.5, -2.0),
        (-2.0, -3.5),
        (0.0, -0.0),
        (f32::INFINITY, 1.0e30),
        (f32::NEG_INFINITY, -1.0e30),
        (7.25, 7.25),
    ];
    for (a, b) in pairs {
        assert_eq!(le(a.to_bits(), b.to_bits()), a <= b, "{} <= {}", a, b);
        assert_eq!(lt(a.to_bits(), b.to_bits()), a < b, "{} < {}", a, b);
        assert_eq!(eq(a.to_bits(), b.to_bits()), a == b, "{} == {}", a, b);
    }
}

#[test]
fn nan_compares_false() {
    let nan = f32::NAN.to_bits();
    let one = 1.0f32.to_bits();
    assert!(!le(nan, one));
    assert!(!le(one, nan));
    assert!(!lt(nan, nan));
    assert!(!eq(nan, nan));
}

#[test]
fn min_and_max_pass_over_nan() {
    let nan = f32::NAN.to_bits();
    let two = 2.0f32.to_bits();
    let five = 5.0f32.to_bits();
    assert_eq!(min(nan, two), two);
    assert_eq!(max(two, nan), two);
    assert_eq!(min(five, two), two);
    assert_eq!(max(five, two), five);
}

#[test]
fn within_spans_either_order() {
    let v = 3.0f32.to_bits();
    assert!(within(v, 1.0f32.to_bits(), 4.0f32.to_bits()));
    assert!(within(v, 4.0f32.to_bits(), 1.0f32.to_bits()));
    assert!(within(v, 3.0f32.to_bits(), 3.0f32.to_bits()));
    assert!(!within(v, 4.0f32.to_bits(), 9.0f32.to_bits()));
    assert!(within(0.0f32.to_bits(), (-0.0f32).to_bits(), 1.0f32.to_bits()));
    assert!(!within(f32::NAN.to_bits(), 1.0f32.to_bits(), 4.0f32.to_bits()));
}

#[test]
fn full_turn_is_two_pi() {
    assert_eq!(FULL_TURN, (2.0 * std::f32::consts::PI).to_bits());
    assert_eq!(ZERO, 0.0f32.to_bits());
}

#[test]
fn segment_keeps_points_inside_its_box() {
    let seg = SegmentData { p1: pt(0.0, 0.0), p2: pt(10.0, 5.0) };
    let points = vec![
        pt(5.0, 2.5),
        pt(11.0, 2.0),
        pt(10.0, 5.0),
        pt(3.0, -1.0),
        pt(0.0, 0.0),
    ];
    let kept = seg.valid_points(points);
    assert_eq!(kept, vec![pt(5.0, 2.5), pt(10.0, 5.0), pt(0.0, 0.0)]);
    for p in &kept {
        let (x, y) = (f32::from_bits(p.x), f32::from_bits(p.y));
        assert!((0.0..=10.0).contains(&x));
        assert!((0.0..=5.0).contains(&y));
    }
}

#[test]
fn segment_with_reversed_endpoints_spans_the_same_box() {
    let seg = SegmentData { p1: pt(4.0, 8.0), p2: pt(-4.0, -8.0) };
    let kept = seg.valid_points(vec![pt(-4.0, 0.0), pt(0.0, 8.5), pt(1.0, 1.0)]);
    assert_eq!(kept, vec![pt(-4.0, 0.0), pt(1.0, 1.0)]);
}

#[test]
fn segment_line_keeps_endpoints() {
    let seg = SegmentData { p1: pt(1.0, 2.0), p2: pt(3.0, 4.0) };
    assert_eq!(seg.line(), LineData { p1: pt(1.0, 2.0), p2: pt(3.0, 4.0) });
}

#[test]
fn arc_circle_keeps_centre_and_radius() {
    let arc = ArcData {
        pos: pt(1.0, 1.0),
        r: 2.0f32.to_bits(),
        start: 0.5f32.to_bits(),
        stop: 1.5f32.to_bits(),
    };
    assert_eq!(arc.circle(), CircleData { pos: pt(1.0, 1.0), r: 2.0f32.to_bits() });
}

#[test]
fn arc_keeps_angles_between_start_and_stop() {
    let arc = ArcData {
        pos: pt(0.0, 0.0),
        r: 1.0f32.to_bits(),
        start: 1.0f32.to_bits(),
        stop: 2.0f32.to_bits(),
    };
    let points = vec![pt(1.0, 0.0), pt(2.0, 0.0), pt(3.0, 0.0), pt(4.0, 0.0)];
    let angles = vec![
        0.5f32.to_bits(),
        1.0f32.to_bits(),
        2.0f32.to_bits(),
        2.5f32.to_bits(),
    ];
    assert_eq!(arc.valid_points(points, &angles), vec![pt(2.0, 0.0), pt(3.0, 0.0)]);
}

#[test]
fn arc_with_stop_before_start_wraps_through_zero() {
    let arc = ArcData {
        pos: pt(0.0, 0.0),
        r: 1.0f32.to_bits(),
        start: 5.0f32.to_bits(),
        stop: 1.0f32.to_bits(),
    };
    let points = vec![pt(1.0, 0.0), pt(2.0, 0.0), pt(3.0, 0.0), pt(4.0, 0.0), pt(5.0, 0.0)];
    let angles = vec![
        0.0f32.to_bits(),
        0.5f32.to_bits(),
        3.0f32.to_bits(),
        6.0f32.to_bits(),
        6.5f32.to_bits(),
    ];
    assert_eq!(
        arc.valid_points(points, &angles),
        vec![pt(1.0, 0.0), pt(2.0, 0.0), pt(4.0, 0.0)]
    );
}
