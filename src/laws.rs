use vstd::prelude::*;

use crate::geometry::{path_length, segment_length, traced_length, Coordinate, Line, LineString, Point};
use crate::interpolate::{affine_point, is_first_reaching, reach_at, LineInterpolatePoint};
use crate::scalar::{is_nonneg, Comparison, Scalar};

verus! {

/// A fraction at or below zero gives the segment's start.
pub proof fn lemma_segment_at_or_below_zero<T: Scalar>(line: Line<T>, f: T)
    requires
        T::spec_compare(f, T::spec_zero()) == Comparison::Less || T::spec_compare(f, T::spec_zero())
            == Comparison::Equal,
    ensures
        line.interpolated(f) == Some(Point(line.start)),
{
}

/// A fraction at or above one gives the segment's end.
pub proof fn lemma_segment_at_or_above_one<T: Scalar>(line: Line<T>, f: T)
    requires
        T::spec_compare(f, T::spec_one()) == Comparison::Greater || T::spec_compare(f, T::spec_one())
            == Comparison::Equal,
    ensures
        line.interpolated(f) == Some(Point(line.end)),
{
    T::lemma_one_above_zero();
    T::lemma_above_trans(f, T::spec_one(), T::spec_zero());
}

/// A fraction that is not a number gives no point.
pub proof fn lemma_segment_nan<T: Scalar>(line: Line<T>, f: T)
    requires
        T::spec_is_nan(f),
    ensures
        line.interpolated(f) == None::<Point<T>>,
{
    T::lemma_unordered(f, T::spec_zero());
}

/// A fraction strictly between zero and one gives exactly
/// `start + f * (end - start)`, componentwise, when that point is finite.
pub proof fn lemma_segment_inside<T: Scalar>(line: Line<T>, f: T)
    requires
        T::spec_compare(f, T::spec_zero()) == Comparison::Greater,
        T::spec_compare(f, T::spec_one()) == Comparison::Less,
        T::spec_is_finite(affine_point(line.start, line.end, f).x),
        T::spec_is_finite(affine_point(line.start, line.end, f).y),
    ensures
        line.interpolated(f) == Some(Point(affine_point(line.start, line.end, f))),
{
}

/// An empty path gives no point, whatever the fraction.
pub proof fn lemma_empty_path<T: Scalar>(path: LineString<T>, f: T)
    requires
        path.0@.len() == 0,
    ensures
        path.interpolated(f) == None::<Point<T>>,
{
}

/// Every coordinate of every position is finite.
pub open spec fn is_finite_path<T: Scalar>(pts: Seq<Coordinate<T>>) -> bool {
    forall|i: int| 0 <= i < pts.len() ==> T::spec_is_finite(#[trigger] pts[i].x) && T::spec_is_finite(pts[i].y)
}

/// Segments of a finite path have lengths zero or above.
pub proof fn lemma_segment_length_nonneg<T: Scalar>(pts: Seq<Coordinate<T>>, i: int)
    requires
        is_finite_path(pts),
        0 <= i < pts.len() - 1,
    ensures
        is_nonneg(segment_length(pts[i], pts[i + 1])),
{
    let (a, b) = (pts[i], pts[i + 1]);
    T::lemma_sub_finite(b.x, a.x);
    T::lemma_sub_finite(b.y, a.y);
    T::lemma_hypot_nonneg(T::spec_sub(b.x, a.x), T::spec_sub(b.y, a.y));
}

/// Lengths traced along a finite path are zero or above.
pub proof fn lemma_traced_length_nonneg<T: Scalar>(pts: Seq<Coordinate<T>>, k: nat)
    requires
        is_finite_path(pts),
    ensures
        is_nonneg(traced_length(pts, k)),
    decreases k,
{
    T::lemma_zero_self();
    T::lemma_unordered(T::spec_zero(), T::spec_zero());
    if k > 0 && k < pts.len() {
        lemma_traced_length_nonneg(pts, (k - 1) as nat);
        lemma_segment_length_nonneg(pts, k - 1);
        T::lemma_add_nonneg(traced_length(pts, (k - 1) as nat), segment_length(pts[k - 1], pts[k as int]));
    }
}

/// On a finite, non-empty path of finite length whose first segment (if
/// any) has a positive length, the fraction zero gives the first position.
pub proof fn lemma_path_at_zero<T: Scalar>(path: LineString<T>)
    requires
        path.0@.len() > 0,
        is_finite_path(path.0@),
        T::spec_is_finite(path_length(path.0@)),
        path.0@.len() > 1 ==> T::spec_compare(segment_length(path.0@[0], path.0@[1]), T::spec_zero())
            == Comparison::Greater,
    ensures
        path.interpolated(T::spec_zero()) == Some(Point(path.0@[0])),
{
    let pts = path.0@;
    let zero = T::spec_zero();
    T::lemma_zero_self();
    T::lemma_unordered(zero, zero);
    lemma_traced_length_nonneg(pts, (pts.len() - 1) as nat);
    T::lemma_mul_zero(path_length(pts));
    let target = T::spec_mul(path_length(pts), zero);
    assert(target == zero);
    assert forall|i: int| 0 <= i < pts.len() - 1 implies reach_at(pts, target, i) != Comparison::Undefined by {
        lemma_traced_length_nonneg(pts, i as nat);
        lemma_segment_length_nonneg(pts, i);
        let reached = T::spec_add(traced_length(pts, i as nat), segment_length(pts[i], pts[i + 1]));
        T::lemma_add_nonneg(traced_length(pts, i as nat), segment_length(pts[i], pts[i + 1]));
        T::lemma_unordered(reached, zero);
    }
    if pts.len() > 1 {
        let len0 = segment_length(pts[0], pts[1]);
        T::lemma_unordered(len0, zero);
        T::lemma_add_nonneg(zero, len0);
        assert(reach_at(pts, target, 0) == Comparison::Greater);
        assert(is_first_reaching(pts, target, 0));
        let w = choose|j: int| is_first_reaching(pts, target, j);
        if w > 0 {
            assert(reach_at(pts, target, 0) == Comparison::Less);
        }
        T::lemma_div_zero(len0);
    } else {
        assert(!exists|j: int| is_first_reaching(pts, target, j));
    }
}

/// Where the length traced to segment `m` is finite, so is the length traced
/// to every earlier one, and so is each of those segments.
pub proof fn lemma_traced_length_finite<T: Scalar>(pts: Seq<Coordinate<T>>, k: nat, m: nat)
    requires
        is_finite_path(pts),
        k <= m < pts.len(),
        T::spec_is_finite(traced_length(pts, m)),
    ensures
        T::spec_is_finite(traced_length(pts, k)),
        k < m ==> T::spec_is_finite(segment_length(pts[k as int], pts[k + 1 as int])),
    decreases m - k,
{
    if k < m {
        lemma_traced_length_nonneg(pts, (m - 1) as nat);
        lemma_segment_length_nonneg(pts, m - 1);
        T::lemma_add_nonneg(traced_length(pts, (m - 1) as nat), segment_length(pts[m - 1], pts[m as int]));
        lemma_traced_length_finite(pts, k, (m - 1) as nat);
        if k + 1 < m {
            lemma_traced_length_finite(pts, (k + 1) as nat, (m - 1) as nat);
            lemma_traced_length_nonneg(pts, k);
            lemma_segment_length_nonneg(pts, k as int);
            T::lemma_add_nonneg(traced_length(pts, k), segment_length(pts[k as int], pts[k + 1 as int]));
        }
    }
}

/// Where the first segment has a positive length, so has every length traced
/// past it.
pub proof fn lemma_traced_length_positive<T: Scalar>(pts: Seq<Coordinate<T>>, k: nat)
    requires
        is_finite_path(pts),
        1 <= k < pts.len(),
        T::spec_compare(segment_length(pts[0], pts[1]), T::spec_zero()) == Comparison::Greater,
    ensures
        T::spec_compare(traced_length(pts, k), T::spec_zero()) == Comparison::Greater,
    decreases k,
{
    T::lemma_zero_self();
    T::lemma_unordered(T::spec_zero(), T::spec_zero());
    lemma_traced_length_nonneg(pts, (k - 1) as nat);
    lemma_segment_length_nonneg(pts, k - 1);
    T::lemma_add_nonneg(traced_length(pts, (k - 1) as nat), segment_length(pts[k - 1], pts[k as int]));
    if k > 1 {
        lemma_traced_length_positive(pts, (k - 1) as nat);
    }
}

/// On a finite, non-empty path of finite length whose first segment (if
/// any) has a positive length, a fraction below zero gives what the fraction
/// zero gives: the first position.
pub proof fn lemma_path_below_zero<T: Scalar>(path: LineString<T>, f: T)
    requires
        path.0@.len() > 0,
        is_finite_path(path.0@),
        T::spec_is_finite(path_length(path.0@)),
        path.0@.len() > 1 ==> T::spec_compare(segment_length(path.0@[0], path.0@[1]), T::spec_zero())
            == Comparison::Greater,
        T::spec_compare(f, T::spec_zero()) == Comparison::Less,
    ensures
        path.interpolated(f) == path.interpolated(T::spec_zero()),
        path.interpolated(f) == Some(Point(path.0@[0])),
{
    lemma_path_at_zero(path);
    let pts = path.0@;
    let zero = T::spec_zero();
    let target = T::spec_mul(path_length(pts), f);
    T::lemma_zero_self();
    T::lemma_unordered(zero, zero);
    if pts.len() > 1 {
        let n1 = (pts.len() - 1) as nat;
        let len0 = segment_length(pts[0], pts[1]);
        lemma_traced_length_positive(pts, n1);
        T::lemma_mul_negative(path_length(pts), f);
        assert forall|i: int| 0 <= i < pts.len() - 1 implies reach_at(pts, target, i) != Comparison::Undefined by {
            lemma_traced_length_nonneg(pts, i as nat);
            lemma_segment_length_nonneg(pts, i);
            let reached = T::spec_add(traced_length(pts, i as nat), segment_length(pts[i], pts[i + 1]));
            T::lemma_add_nonneg(traced_length(pts, i as nat), segment_length(pts[i], pts[i + 1]));
            T::lemma_unordered(reached, target);
        }
        lemma_segment_length_nonneg(pts, 0);
        T::lemma_add_nonneg(zero, len0);
        T::lemma_compare_flip(target, zero);
        T::lemma_above_trans(len0, zero, target);
        assert(reach_at(pts, target, 0) == Comparison::Greater);
        assert(is_first_reaching(pts, target, 0));
        let w = choose|j: int| is_first_reaching(pts, target, j);
        if w > 0 {
            assert(reach_at(pts, target, 0) == Comparison::Less);
        }
        lemma_traced_length_finite(pts, 0, n1);
        T::lemma_sub_zero(target);
        T::lemma_div_nonpositive(target, len0);
    } else {
        assert(!exists|j: int| is_first_reaching(pts, target, j));
    }
}

/// Lengths traced along a finite path grow: the length traced to segment `k`
/// is at most that traced to a later segment `m`.
pub proof fn lemma_traced_length_grows<T: Scalar>(pts: Seq<Coordinate<T>>, k: nat, m: nat)
    requires
        is_finite_path(pts),
        k <= m < pts.len(),
    ensures
        T::spec_compare(traced_length(pts, m), traced_length(pts, k)) == Comparison::Greater
            || T::spec_compare(traced_length(pts, m), traced_length(pts, k)) == Comparison::Equal,
    decreases m - k,
{
    lemma_traced_length_nonneg(pts, m);
    T::lemma_zero_self();
    if k == m {
        T::lemma_unordered(traced_length(pts, m), traced_length(pts, m));
        lemma_compare_self(traced_length(pts, m));
    } else {
        lemma_traced_length_grows(pts, k, (m - 1) as nat);
        lemma_traced_length_nonneg(pts, (m - 1) as nat);
        lemma_segment_length_nonneg(pts, m - 1);
        T::lemma_add_nonneg(traced_length(pts, (m - 1) as nat), segment_length(pts[m - 1], pts[m as int]));
        T::lemma_at_or_above_trans(traced_length(pts, m), traced_length(pts, (m - 1) as nat), traced_length(pts, k));
    }
}

/// A number compares equal to itself.
pub proof fn lemma_compare_self<T: Scalar>(a: T)
    requires
        !T::spec_is_nan(a),
    ensures
        T::spec_compare(a, a) == Comparison::Equal,
{
    T::lemma_unordered(a, a);
    T::lemma_compare_flip(a, a);
}

/// On a finite path, a fraction whose target length (the path's length times
/// the fraction) lies beyond the path's length gives the last position.
pub proof fn lemma_path_beyond_length<T: Scalar>(path: LineString<T>, f: T)
    requires
        path.0@.len() > 0,
        is_finite_path(path.0@),
        T::spec_compare(T::spec_mul(path_length(path.0@), f), path_length(path.0@)) == Comparison::Greater,
    ensures
        path.interpolated(f) == Some(Point(path.0@.last())),
{
    let pts = path.0@;
    let total = path_length(pts);
    let target = T::spec_mul(total, f);
    assert forall|i: int| 0 <= i < pts.len() - 1 implies reach_at(pts, target, i) == Comparison::Less by {
        lemma_traced_length_nonneg(pts, i as nat);
        lemma_segment_length_nonneg(pts, i);
        let reached = T::spec_add(traced_length(pts, i as nat), segment_length(pts[i], pts[i + 1]));
        assert(reached == traced_length(pts, (i + 1) as nat));
        lemma_traced_length_grows(pts, (i + 1) as nat, (pts.len() - 1) as nat);
        T::lemma_above_trans(target, total, reached);
        T::lemma_compare_flip(reached, target);
    }
    assert(!exists|j: int| is_first_reaching(pts, target, j));
}

/// A path with a segment that has an end with a coordinate that is not a
/// number gives no point, whatever the fraction, provided neither difference
/// of that segment's coordinates is infinite.
pub proof fn lemma_path_with_nan<T: Scalar>(path: LineString<T>, f: T, m: int)
    requires
        0 <= m < path.0@.len() - 1,
        ({
            let (a, b) = (path.0@[m], path.0@[m + 1]);
            &&& T::spec_is_nan(a.x) || T::spec_is_nan(b.x) || T::spec_is_nan(a.y) || T::spec_is_nan(b.y)
            &&& T::spec_is_nan(T::spec_sub(b.x, a.x)) || T::spec_is_finite(T::spec_sub(b.x, a.x))
            &&& T::spec_is_nan(T::spec_sub(b.y, a.y)) || T::spec_is_finite(T::spec_sub(b.y, a.y))
        }),
    ensures
        path.interpolated(f) == None::<Point<T>>,
{
    let pts = path.0@;
    let (a, b) = (pts[m], pts[m + 1]);
    let target = T::spec_mul(path_length(pts), f);
    if T::spec_is_nan(a.x) || T::spec_is_nan(b.x) {
        T::lemma_sub_nan(b.x, a.x);
    } else {
        T::lemma_sub_nan(b.y, a.y);
    }
    T::lemma_hypot_nan(T::spec_sub(b.x, a.x), T::spec_sub(b.y, a.y));
    let reached = T::spec_add(traced_length(pts, m as nat), segment_length(a, b));
    T::lemma_add_nan(traced_length(pts, m as nat), segment_length(a, b));
    T::lemma_unordered(reached, target);
    assert(reach_at(pts, target, m) == Comparison::Undefined);
}

} // verus!
