use line_interpolate::geometry::{Coordinate, Line, LineString, Point};
use line_interpolate::interpolate::LineInterpolatePoint;
use line_interpolate::scalar::{Comparison, Scalar};

/// Double-precision coordinates.
#[derive(Clone, Copy, Debug, PartialEq)]
struct F(f64);

fn compare_f64(a: f64, b: f64) -> Comparison {
    match a.partial_cmp(&b) {
        Some(std::cmp::Ordering::Less) => Comparison::Less,
        Some(std::cmp::Ordering::Equal) => Comparison::Equal,
        Some(std::cmp::Ordering::Greater) => Comparison::Greater,
        None => Comparison::Undefined,
    }
}

impl Scalar for F {
    fn spec_zero() -> Self {
        F(0.0)
    }
    fn spec_one() -> Self {
        F(1.0)
    }
    fn spec_add(a: Self, b: Self) -> Self {
        F(a.0 + b.0)
    }
    fn spec_sub(a: Self, b: Self) -> Self {
        F(a.0 - b.0)
    }
    fn spec_mul(a: Self, b: Self) -> Self {
        F(a.0 * b.0)
    }
    fn spec_div(a: Self, b: Self) -> Self {
        F(a.0 / b.0)
    }
    fn spec_hypot(dx: Self, dy: Self) -> Self {
        F(dx.0.hypot(dy.0))
    }
    fn spec_compare(a: Self, b: Self) -> Comparison {
        compare_f64(a.0, b.0)
    }
    fn spec_is_finite(a: Self) -> bool {
        a.0.is_finite()
    }
    fn spec_is_nan(a: Self) -> bool {
        a.0.is_nan()
    }
    fn lemma_unordered(_a: Self, _b: Self) {}
    fn lemma_one_above_zero() {}
    fn lemma_above_trans(_a: Self, _b: Self, _c: Self) {}
    fn lemma_zero_self() {}
    fn lemma_sub_finite(_a: Self, _b: Self) {}
    fn lemma_hypot_nonneg(_dx: Self, _dy: Self) {}
    fn lemma_add_nonneg(_a: Self, _b: Self) {}
    fn lemma_mul_zero(_a: Self) {}
    fn lemma_div_zero(_b: Self) {}
    fn lemma_at_or_above_trans(_a: Self, _b: Self, _c: Self) {}
    fn lemma_compare_flip(_a: Self, _b: Self) {}
    fn lemma_mul_negative(_a: Self, _f: Self) {}
    fn lemma_sub_zero(_a: Self) {}
    fn lemma_div_nonpositive(_a: Self, _b: Self) {}
    fn lemma_sub_nan(_a: Self, _b: Self) {}
    fn lemma_add_nan(_a: Self, _b: Self) {}
    fn lemma_hypot_nan(_dx: Self, _dy: Self) {}
    fn zero() -> Self {
        F(0.0)
    }
    fn one() -> Self {
        F(1.0)
    }
    fn add(a: Self, b: Self) -> Self {
        F(a.0 + b.0)
    }
    fn sub(a: Self, b: Self) -> Self {
        F(a.0 - b.0)
    }
    fn mul(a: Self, b: Self) -> Self {
        F(a.0 * b.0)
    }
    fn div(a: Self, b: Self) -> Self {
        F(a.0 / b.0)
    }
    fn hypot(dx: Self, dy: Self) -> Self {
        F(dx.0.hypot(dy.0))
    }
    fn compare(a: Self, b: Self) -> Comparison {
        compare_f64(a.0, b.0)
    }
    fn is_finite(a: Self) -> bool {
        a.0.is_finite()
    }
}

fn c(x: f64, y: f64) -> Coordinate<F> {
    Coordinate { x: F(x), y: F(y) }
}

fn pt(x: f64, y: f64) -> Point<F> {
    Point::new(F(x), F(y))
}

fn path(coords: &[[f64; 2]]) -> LineString<F> {
    LineString::new(coords.iter().map(|p| c(p[0], p[1])).collect())
}

#[test]
fn test_line_interpolate_point_line() {
    let line = Line::new(c(-1.0, 0.0), c(1.0, 0.0));
    // some finite examples
    assert_eq!(line.line_interpolate_point(&F(-1.0)), Some(pt(-1.0, 0.0)));
    assert_eq!(line.line_interpolate_point(&F(0.5)), Some(pt(0.0, 0.0)));
    assert_eq!(line.line_interpolate_point(&F(0.75)), Some(pt(0.5, 0.0)));
    assert_eq!(line.line_interpolate_point(&F(0.0)), Some(pt(-1.0, 0.0)));
    assert_eq!(line.line_interpolate_point(&F(1.0)), Some(pt(1.0, 0.0)));
    assert_eq!(line.line_interpolate_point(&F(2.0)), Some(pt(1.0, 0.0)));

    // fraction is nan or inf
    assert_eq!(line.line_interpolate_point(&F(f64::NAN)), None);
    assert_eq!(line.line_interpolate_point(&F(f64::INFINITY)), Some(Point(line.end)));
    assert_eq!(line.line_interpolate_point(&F(f64::NEG_INFINITY)), Some(Point(line.start)));

    let line = Line::new(c(0.0, 0.0), c(1.0, 1.0));
    assert_eq!(line.line_interpolate_point(&F(0.5)), Some(pt(0.5, 0.5)));

    // line contains nans or infs
    let line = Line::new(c(f64::NAN, 0.0), c(1.0, 1.0));
    assert_eq!(line.line_interpolate_point(&F(0.5)), None);

    let line = Line::new(c(f64::INFINITY, 0.0), c(1.0, 1.0));
    assert_eq!(line.line_interpolate_point(&F(0.5)), None);

    let line = Line::new(c(0.0, 0.0), c(1.0, f64::INFINITY));
    assert_eq!(line.line_interpolate_point(&F(0.5)), None);

    let line = Line::new(c(f64::NEG_INFINITY, 0.0), c(1.0, 1.0));
    assert_eq!(line.line_interpolate_point(&F(0.5)), None);

    let line = Line::new(c(0.0, 0.0), c(1.0, f64::NEG_INFINITY));
    assert_eq!(line.line_interpolate_point(&F(0.5)), None);
}

#[test]
fn test_line_interpolate_point_linestring() {
    // some finite examples
    let linestring = path(&[[-1.0, 0.0], [0.0, 0.0], [1.0, 0.0]]);
    assert_eq!(linestring.line_interpolate_point(&F(0.5)), Some(pt(0.0, 0.0)));
    assert_eq!(linestring.line_interpolate_point(&F(1.0)), Some(pt(1.0, 0.0)));

    // fraction is nan or inf
    assert_eq!(linestring.line_interpolate_point(&F(f64::INFINITY)), Some(Point(linestring.0[2])));
    assert_eq!(linestring.line_interpolate_point(&F(f64::NEG_INFINITY)), Some(Point(linestring.0[0])));
    assert_eq!(linestring.line_interpolate_point(&F(f64::NAN)), None);

    let linestring = path(&[[-1.0, 0.0], [0.0, 0.0], [0.0, 1.0]]);
    assert_eq!(linestring.line_interpolate_point(&F(1.5)), Some(pt(0.0, 1.0)));

    // linestrings with nans/infs
    let linestring = path(&[[-1.0, 0.0], [0.0, f64::NAN], [0.0, 1.0]]);
    assert_eq!(linestring.line_interpolate_point(&F(0.5)), None);

    let linestring = path(&[[-1.0, 0.0], [0.0, f64::INFINITY], [0.0, 1.0]]);
    assert_eq!(linestring.line_interpolate_point(&F(0.5)), None);

    let linestring = path(&[[-1.0, 0.0], [0.0, f64::NEG_INFINITY], [0.0, 1.0]]);
    assert_eq!(linestring.line_interpolate_point(&F(0.5)), None);

    // Empty line
    let linestring: LineString<F> = LineString::new(Vec::new());
    assert_eq!(linestring.line_interpolate_point(&F(0.5)), None);
}

/// Fraction of the way along the segment `a`..`b` of the point on it closest to `p`.
fn locate_on_segment(a: [f64; 2], b: [f64; 2], p: [f64; 2]) -> f64 {
    let sp = [p[0] - a[0], p[1] - a[1]];
    let v = [b[0] - a[0], b[1] - a[1]];
    let v_sq = v[0] * v[0] + v[1] * v[1];
    if v_sq == 0.0 {
        return 0.0;
    }
    let l = (v[0] * sp[0] + v[1] * sp[1]) / v_sq;
    l.max(0.0).min(1.0)
}

fn point_on_segment(a: [f64; 2], b: [f64; 2], l: f64) -> [f64; 2] {
    if l <= 0.0 {
        a
    } else if l >= 1.0 {
        b
    } else {
        [a[0] + l * (b[0] - a[0]), a[1] + l * (b[1] - a[1])]
    }
}

fn distance(a: [f64; 2], b: [f64; 2]) -> f64 {
    (b[0] - a[0]).hypot(b[1] - a[1])
}

/// Fraction of the path's length at which its point closest to `p` lies.
fn locate_on_path(coords: &[[f64; 2]], p: [f64; 2]) -> f64 {
    let total: f64 = coords.windows(2).fold(0.0, |t, w| t + distance(w[0], w[1]));
    let mut traced = 0.0;
    let mut best = f64::INFINITY;
    let mut fraction = 0.0;
    for w in coords.windows(2) {
        let l = locate_on_segment(w[0], w[1], p);
        let len = distance(w[0], w[1]);
        let d = distance(point_on_segment(w[0], w[1], l), p);
        if d < best {
            best = d;
            fraction = (traced + l * len) / total;
        }
        traced += len;
    }
    fraction
}

/// The point of the path closest to `p`.
fn closest_on_path(coords: &[[f64; 2]], p: [f64; 2]) -> [f64; 2] {
    let mut best = f64::INFINITY;
    let mut closest = coords[0];
    for w in coords.windows(2) {
        let q = point_on_segment(w[0], w[1], locate_on_segment(w[0], w[1], p));
        let d = distance(q, p);
        if d < best {
            best = d;
            closest = q;
        }
    }
    closest
}

#[test]
fn test_matches_closest_point() {
    // locating the closest point gives a fraction; interpolating the path
    // at that fraction gives the closest point back
    let coords = [[-1.0, 0.0], [0.5, 1.0], [1.0, 2.0]];
    let linestring = path(&coords);
    let q = [0.7, 0.7];
    let frac = locate_on_path(&coords, q);
    assert!((0.0..=1.0).contains(&frac), "Should result in fraction between 0 and 1");
    let interpolated_point = linestring
        .line_interpolate_point(&F(frac))
        .expect("Shouldn't return None");
    let closest = closest_on_path(&coords, q);
    assert_eq!(interpolated_point, pt(closest[0], closest[1]));
}

#[test]
fn path_quarter_points_on_straight_path() {
    let linestring = path(&[[-1.0, 0.0], [0.0, 0.0], [1.0, 0.0]]);
    assert_eq!(linestring.euclidean_length(), F(2.0));
    assert_eq!(linestring.line_interpolate_point(&F(0.25)), Some(pt(-0.5, 0.0)));
    assert_eq!(linestring.line_interpolate_point(&F(0.5)), Some(pt(0.0, 0.0)));
    assert_eq!(linestring.line_interpolate_point(&F(0.75)), Some(pt(0.5, 0.0)));
}

#[test]
fn path_with_a_bend() {
    let linestring = path(&[[-1.0, 0.0], [0.0, 0.0], [0.0, 1.0]]);
    assert_eq!(Line::new(c(-1.0, 0.0), c(0.0, 0.0)).euclidean_length(), F(1.0));
    assert_eq!(Line::new(c(0.0, 0.0), c(0.0, 1.0)).euclidean_length(), F(1.0));
    assert_eq!(linestring.euclidean_length(), F(2.0));
    assert_eq!(linestring.line_interpolate_point(&F(-1.0)), Some(pt(-1.0, 0.0)));
    assert_eq!(linestring.line_interpolate_point(&F(0.25)), Some(pt(-0.5, 0.0)));
    assert_eq!(linestring.line_interpolate_point(&F(0.5)), Some(pt(0.0, 0.0)));
    assert_eq!(linestring.line_interpolate_point(&F(0.75)), Some(pt(0.0, 0.5)));
    assert_eq!(linestring.line_interpolate_point(&F(1.0)), Some(pt(0.0, 1.0)));
    assert_eq!(linestring.line_interpolate_point(&F(1.5)), Some(pt(0.0, 1.0)));
    assert_eq!(linestring.line_interpolate_point(&F(2.0)), Some(pt(0.0, 1.0)));
}

#[test]
fn path_ends_at_zero_and_one() {
    let linestring = path(&[[1.0, 1.0], [4.0, 5.0], [4.0, 9.0]]);
    assert_eq!(linestring.line_interpolate_point(&F(0.0)), Some(pt(1.0, 1.0)));
    assert_eq!(linestring.line_interpolate_point(&F(1.0)), Some(pt(4.0, 9.0)));
    assert_eq!(linestring.line_interpolate_point(&F(-3.0)), Some(pt(1.0, 1.0)));
    assert_eq!(linestring.line_interpolate_point(&F(7.0)), Some(pt(4.0, 9.0)));
    // half of the length 9 lies at 4.5 / 5 of the first segment
    assert_eq!(linestring.line_interpolate_point(&F(0.5)), Some(pt(0.9 * 3.0 + 1.0, 0.9 * 4.0 + 1.0)));
}

#[test]
fn path_of_one_point() {
    let linestring = path(&[[3.0, 4.0]]);
    assert_eq!(linestring.euclidean_length(), F(0.0));
    assert_eq!(linestring.line_interpolate_point(&F(0.0)), Some(pt(3.0, 4.0)));
    assert_eq!(linestring.line_interpolate_point(&F(0.5)), Some(pt(3.0, 4.0)));
    assert_eq!(linestring.line_interpolate_point(&F(-2.0)), Some(pt(3.0, 4.0)));
    assert_eq!(linestring.line_interpolate_point(&F(f64::NAN)), Some(pt(3.0, 4.0)));
}

#[test]
fn path_with_repeated_point_first() {
    // the first segment has no length: the share of the target in it is 0/0
    let linestring = path(&[[0.0, 0.0], [0.0, 0.0], [2.0, 0.0]]);
    assert_eq!(linestring.line_interpolate_point(&F(0.0)), None);
    assert_eq!(linestring.line_interpolate_point(&F(0.5)), Some(pt(1.0, 0.0)));
    assert_eq!(linestring.line_interpolate_point(&F(-1.0)), Some(pt(0.0, 0.0)));
}

#[test]
fn path_empty_for_any_fraction() {
    let linestring: LineString<F> = LineString::new(Vec::new());
    assert_eq!(linestring.euclidean_length(), F(0.0));
    assert_eq!(linestring.line_interpolate_point(&F(0.0)), None);
    assert_eq!(linestring.line_interpolate_point(&F(1.0)), None);
    assert_eq!(linestring.line_interpolate_point(&F(-1.0)), None);
    assert_eq!(linestring.line_interpolate_point(&F(f64::NAN)), None);
}

#[test]
fn path_with_nan_coordinate() {
    let linestring = path(&[[0.0, 0.0], [1.0, 0.0], [f64::NAN, 0.0]]);
    assert_eq!(linestring.line_interpolate_point(&F(0.0)), None);
    assert_eq!(linestring.line_interpolate_point(&F(0.25)), None);
    assert_eq!(linestring.line_interpolate_point(&F(1.0)), None);
    assert_eq!(linestring.line_interpolate_point(&F(-1.0)), None);
    assert_eq!(linestring.line_interpolate_point(&F(f64::INFINITY)), None);
}

#[test]
fn path_with_infinite_coordinate() {
    let linestring = path(&[[0.0, 0.0], [1.0, 0.0], [2.0, f64::INFINITY]]);
    assert_eq!(linestring.line_interpolate_point(&F(0.0)), None);
    assert_eq!(linestring.line_interpolate_point(&F(0.25)), None);
    // a negative target length lies in the first segment, before the infinity
    assert_eq!(linestring.line_interpolate_point(&F(-1.0)), Some(pt(0.0, 0.0)));
}

#[test]
fn segment_boundaries_and_nan() {
    let line = Line::new(c(2.0, 3.0), c(f64::NAN, f64::INFINITY));
    // the boundaries return an endpoint without arithmetic
    assert_eq!(line.line_interpolate_point(&F(0.0)), Some(pt(2.0, 3.0)));
    assert_eq!(line.line_interpolate_point(&F(-0.5)), Some(pt(2.0, 3.0)));
    assert_eq!(line.line_interpolate_point(&F(f64::NEG_INFINITY)), Some(pt(2.0, 3.0)));
    assert_eq!(line.line_interpolate_point(&F(1.0)).map(|p| p.0.y), Some(F(f64::INFINITY)));
    assert_eq!(line.line_interpolate_point(&F(0.5)), None);
    let line = Line::new(c(2.0, 3.0), c(6.0, -5.0));
    assert_eq!(line.line_interpolate_point(&F(f64::NAN)), None);
    assert_eq!(line.line_interpolate_point(&F(0.25)), Some(pt(3.0, 1.0)));
    assert_eq!(line.line_interpolate_point(&F(3.0)), Some(pt(6.0, -5.0)));
}

#[test]
fn segment_inside_is_affine_combination() {
    let line = Line::new(c(1.0, 10.0), c(3.0, 4.0));
    let f = 0.3;
    let expected = pt(f * (3.0 - 1.0) + 1.0, f * (4.0 - 10.0) + 10.0);
    assert_eq!(line.line_interpolate_point(&F(f)), Some(expected));
    // finite endpoints whose difference overflows
    let line = Line::new(c(-f64::MAX, 0.0), c(f64::MAX, 0.0));
    assert_eq!(line.line_interpolate_point(&F(0.5)), None);
}
