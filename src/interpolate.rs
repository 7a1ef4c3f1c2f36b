use vstd::prelude::*;

use crate::geometry::{
    path_length, segment_length, traced_length, Coordinate, Line, LineString, Point,
};
use crate::scalar::{Comparison, Scalar};

verus! {

/// Finds the point that lies a given fraction of the way along a geometry,
/// measured by Euclidean arc length.
pub trait LineInterpolatePoint<F: Scalar> {
    type Output;

    /// The result that `line_interpolate_point` returns for `fraction`.
    spec fn interpolated(&self, fraction: F) -> Self::Output;

    fn line_interpolate_point(&self, fraction: &F) -> (r: Self::Output)
        ensures
            r == self.interpolated(*fraction),
    ;
}

/// The point a fraction `f` of the way from `start` to `end`.
///
/// A fraction at or below zero gives `start`, one at or above one gives
/// `end`, in both cases without any arithmetic. A fraction that does not
/// compare (not a number) gives nothing. In between, the point is
/// `start + f * (end - start)`, componentwise, when both components are
/// finite, and nothing otherwise.
pub open spec fn interpolate_segment<T: Scalar>(
    start: Coordinate<T>,
    end: Coordinate<T>,
    f: T,
) -> Option<Point<T>> {
    match T::spec_compare(f, T::spec_zero()) {
        Comparison::Undefined => None,
        Comparison::Less | Comparison::Equal => Some(Point(start)),
        Comparison::Greater => match T::spec_compare(f, T::spec_one()) {
            Comparison::Undefined => None,
            Comparison::Greater | Comparison::Equal => Some(Point(end)),
            Comparison::Less => {
                let p = affine_point(start, end, f);
                if T::spec_is_finite(p.x) && T::spec_is_finite(p.y) {
                    Some(Point(p))
                } else {
                    None
                }
            },
        },
    }
}

/// `start + f * (end - start)`, componentwise, in the scalar's arithmetic.
pub open spec fn affine_point<T: Scalar>(start: Coordinate<T>, end: Coordinate<T>, f: T) -> Coordinate<T> {
    Coordinate {
        x: T::spec_add(T::spec_mul(f, T::spec_sub(end.x, start.x)), start.x),
        y: T::spec_add(T::spec_mul(f, T::spec_sub(end.y, start.y)), start.y),
    }
}

/// How the length traced to the end of segment `i` compares with `target`.
pub open spec fn reach_at<T: Scalar>(pts: Seq<Coordinate<T>>, target: T, i: int) -> Comparison {
    T::spec_compare(T::spec_add(traced_length(pts, i as nat), segment_length(pts[i], pts[i + 1])), target)
}

/// Segment `i` is the first whose end reaches `target`.
pub open spec fn is_first_reaching<T: Scalar>(pts: Seq<Coordinate<T>>, target: T, i: int) -> bool {
    &&& 0 <= i < pts.len() - 1
    &&& reach_at(pts, target, i) != Comparison::Less
    &&& forall|j: int| 0 <= j < i ==> reach_at(pts, target, j) == Comparison::Less
}

/// The point a fraction `f` of the path's length along the path through `pts`.
///
/// The target length is `total * f`. If the comparison of any segment's end
/// against the target is undefined, there is no point. Otherwise the first
/// segment whose end reaches the target is interpolated at the share of the
/// target that falls in it; when no segment reaches it, the result is the
/// last position, if there is one.
pub open spec fn interpolate_path<T: Scalar>(pts: Seq<Coordinate<T>>, f: T) -> Option<Point<T>> {
    let target = T::spec_mul(path_length(pts), f);
    if exists|i: int| 0 <= i < pts.len() - 1 && reach_at(pts, target, i) == Comparison::Undefined {
        None
    } else if exists|i: int| is_first_reaching(pts, target, i) {
        let i = choose|i: int| is_first_reaching(pts, target, i);
        let local = T::spec_div(
            T::spec_sub(target, traced_length(pts, i as nat)),
            segment_length(pts[i], pts[i + 1]),
        );
        interpolate_segment(pts[i], pts[i + 1], local)
    } else if pts.len() > 0 {
        Some(Point(pts.last()))
    } else {
        None
    }
}

impl<T: Scalar> LineInterpolatePoint<T> for Line<T> {
    type Output = Option<Point<T>>;

    open spec fn interpolated(&self, fraction: T) -> Option<Point<T>> {
        interpolate_segment(self.start, self.end, fraction)
    }

    fn line_interpolate_point(&self, fraction: &T) -> (r: Option<Point<T>>) {
        let f = *fraction;
        match T::compare(f, T::zero()) {
            Comparison::Undefined => return None,
            Comparison::Less | Comparison::Equal => return Some(Point(self.start)),
            Comparison::Greater => match T::compare(f, T::one()) {
                Comparison::Undefined => return None,
                Comparison::Greater | Comparison::Equal => return Some(Point(self.end)),
                Comparison::Less => {},
            },
        }
        let x = T::add(T::mul(f, T::sub(self.end.x, self.start.x)), self.start.x);
        let y = T::add(T::mul(f, T::sub(self.end.y, self.start.y)), self.start.y);
        if T::is_finite(x) && T::is_finite(y) {
            Some(Point(Coordinate { x, y }))
        } else {
            None
        }
    }
}

impl<T: Scalar> LineInterpolatePoint<T> for LineString<T> {
    type Output = Option<Point<T>>;

    open spec fn interpolated(&self, fraction: T) -> Option<Point<T>> {
        interpolate_path(self.0@, fraction)
    }

    fn line_interpolate_point(&self, fraction: &T) -> (r: Option<Point<T>>) {
        let pts = &self.0;
        let n = pts.len();
        let total = self.euclidean_length();
        let target = T::mul(total, *fraction);
        let ghost s = pts@;
        let mut traced = T::zero();
        // the first segment whose end reaches the target: its index, the
        // length traced before it and its own length
        let mut found: Option<(usize, T, T)> = None;
        let mut i: usize = 0;
        while i + 1 < n
            invariant
                s == pts@,
                s == self.0@,
                n == s.len(),
                target == T::spec_mul(path_length(s), *fraction),
                i == 0 || i + 1 <= n,
                traced == traced_length(s, i as nat),
                forall|j: int| 0 <= j < i ==> reach_at(s, target, j) != Comparison::Undefined,
                match found {
                    None => forall|j: int| 0 <= j < i ==> reach_at(s, target, j) == Comparison::Less,
                    Some((k, c, l)) => {
                        &&& k < i
                        &&& is_first_reaching(s, target, k as int)
                        &&& c == traced_length(s, k as nat)
                        &&& l == segment_length(s[k as int], s[k + 1])
                    },
                },
            decreases n - i,
        {
            let len = Line::new(pts[i], pts[i + 1]).euclidean_length();
            let reached = T::add(traced, len);
            match T::compare(reached, target) {
                Comparison::Undefined => {
                    assert(reach_at(s, target, i as int) == Comparison::Undefined);
                    return None;
                },
                Comparison::Less => {},
                Comparison::Equal | Comparison::Greater => {
                    if found.is_none() {
                        found = Some((i, traced, len));
                    }
                },
            }
            traced = reached;
            i = i + 1;
        }
        proof {
            assert(!exists|j: int| 0 <= j < s.len() - 1 && reach_at(s, target, j) == Comparison::Undefined);
        }
        match found {
            Some((k, c, l)) => {
                proof {
                    let w = choose|j: int| is_first_reaching(s, target, j);
                    if w < k {
                        assert(reach_at(s, target, w) == Comparison::Less);
                    } else if w > k {
                        assert(reach_at(s, target, k as int) == Comparison::Less);
                    }
                }
                let line = Line::new(pts[k], pts[k + 1]);
                line.line_interpolate_point(&T::div(T::sub(target, c), l))
            },
            None => {
                proof {
                    assert(!exists|j: int| is_first_reaching(s, target, j));
                }
                if n > 0 {
                    Some(Point(pts[n - 1]))
                } else {
                    None
                }
            },
        }
    }
}

} // verus!
