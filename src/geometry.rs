use vstd::prelude::*;

use crate::scalar::Scalar;

verus! {

/// A position in the plane.
#[derive(Clone, Copy, Debug, PartialEq)]
pub struct Coordinate<T> {
    pub x: T,
    pub y: T,
}

/// A single position, as handed back by interpolation.
#[derive(Clone, Copy, Debug, PartialEq)]
pub struct Point<T>(pub Coordinate<T>);

/// A straight, directed segment from `start` to `end`.
#[derive(Clone, Copy, Debug, PartialEq)]
pub struct Line<T> {
    pub start: Coordinate<T>,
    pub end: Coordinate<T>,
}

/// An ordered sequence of positions, read as the segments between
/// consecutive positions.
#[derive(Clone, Debug, PartialEq)]
pub struct LineString<T>(pub Vec<Coordinate<T>>);

impl<T: Copy> Point<T> {
    pub fn new(x: T, y: T) -> (r: Self)
        ensures
            r.0.x == x,
            r.0.y == y,
    {
        Point(Coordinate { x, y })
    }
}

impl<T: Copy> Line<T> {
    pub fn new(start: Coordinate<T>, end: Coordinate<T>) -> (r: Self)
        ensures
            r.start == start,
            r.end == end,
    {
        Line { start, end }
    }
}

impl<T> LineString<T> {
    pub fn new(coords: Vec<Coordinate<T>>) -> (r: Self)
        ensures
            r.0@ == coords@,
    {
        LineString(coords)
    }
}

/// Length of the segment from `a` to `b`, in the scalar's arithmetic.
pub open spec fn segment_length<T: Scalar>(a: Coordinate<T>, b: Coordinate<T>) -> T {
    T::spec_hypot(T::spec_sub(b.x, a.x), T::spec_sub(b.y, a.y))
}

/// Length traced along the first `k` segments of `pts`, summed from the
/// start of the path in order.
pub open spec fn traced_length<T: Scalar>(pts: Seq<Coordinate<T>>, k: nat) -> T
    decreases k,
{
    if k == 0 || k >= pts.len() {
        T::spec_zero()
    } else {
        T::spec_add(traced_length(pts, (k - 1) as nat), segment_length(pts[k - 1], pts[k as int]))
    }
}

/// Total length of the path through `pts`.
pub open spec fn path_length<T: Scalar>(pts: Seq<Coordinate<T>>) -> T {
    if pts.len() == 0 {
        T::spec_zero()
    } else {
        traced_length(pts, (pts.len() - 1) as nat)
    }
}

impl<T: Scalar> Line<T> {
    /// Euclidean length of the segment.
    pub fn euclidean_length(&self) -> (r: T)
        ensures
            r == segment_length(self.start, self.end),
    {
        T::hypot(T::sub(self.end.x, self.start.x), T::sub(self.end.y, self.start.y))
    }
}

impl<T: Scalar> LineString<T> {
    /// Euclidean length of the path: the lengths of its segments, summed in order.
    pub fn euclidean_length(&self) -> (r: T)
        ensures
            r == path_length(self.0@),
    {
        let n = self.0.len();
        let mut total = T::zero();
        if n == 0 {
            return total;
        }
        let mut i: usize = 0;
        while i + 1 < n
            invariant
                n == self.0@.len(),
                n > 0,
                i + 1 <= n,
                total == traced_length(self.0@, i as nat),
            decreases n - i,
        {
            let line = Line::new(self.0[i], self.0[i + 1]);
            total = T::add(total, line.euclidean_length());
            i = i + 1;
        }
        total
    }
}

} // verus!
