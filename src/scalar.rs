use vstd::prelude::*;

verus! {

/// Outcome of comparing two scalars: the three orderings, plus the case where
/// the two values are unordered (one of them is not a number).
#[derive(Clone, Copy, Debug, PartialEq, Eq, Structural)]
pub enum Comparison {
    Less,
    Equal,
    Greater,
    Undefined,
}

/// A coordinate scalar: a number type with the arithmetic that interpolation
/// needs, a comparison that may report two values as unordered, and a test
/// for finiteness.
///
/// The spec functions name what each operation computes; every executable
/// operation is tied to its spec function, so the contracts of the algorithms
/// are exact in terms of the scalar's own arithmetic. The interpolation
/// itself relies on nothing more. The proof functions are laws of the
/// arithmetic, all of them facts of IEEE 754 floating point, on which only
/// the general statements of `laws` rest; an implementation vouches for them.
pub trait Scalar: Copy + Sized {
    spec fn spec_zero() -> Self;

    spec fn spec_one() -> Self;

    spec fn spec_add(a: Self, b: Self) -> Self;

    spec fn spec_sub(a: Self, b: Self) -> Self;

    spec fn spec_mul(a: Self, b: Self) -> Self;

    spec fn spec_div(a: Self, b: Self) -> Self;

    /// Euclidean length of the vector `(dx, dy)`.
    spec fn spec_hypot(dx: Self, dy: Self) -> Self;

    spec fn spec_compare(a: Self, b: Self) -> Comparison;

    spec fn spec_is_finite(a: Self) -> bool;

    /// The value is not a number.
    spec fn spec_is_nan(a: Self) -> bool;

    /// Two values are unordered exactly when one of them is not a number.
    proof fn lemma_unordered(a: Self, b: Self)
        ensures
            (Self::spec_compare(a, b) == Comparison::Undefined) == (Self::spec_is_nan(a)
                || Self::spec_is_nan(b)),
    ;

    /// One lies above zero.
    proof fn lemma_one_above_zero()
        ensures
            Self::spec_compare(Self::spec_one(), Self::spec_zero()) == Comparison::Greater,
    ;

    /// Order is transitive: at or above a value that lies above a third, or
    /// above a value at or above a third, lies above the third.
    proof fn lemma_above_trans(a: Self, b: Self, c: Self)
        requires
            (Self::spec_compare(a, b) == Comparison::Greater && (Self::spec_compare(b, c)
                == Comparison::Greater || Self::spec_compare(b, c) == Comparison::Equal)) || (
            Self::spec_compare(b, c) == Comparison::Greater && (Self::spec_compare(a, b)
                == Comparison::Greater || Self::spec_compare(a, b) == Comparison::Equal)),
        ensures
            Self::spec_compare(a, c) == Comparison::Greater,
    ;

    /// Order is transitive: at or above a value that is at or above a third
    /// is at or above the third.
    proof fn lemma_at_or_above_trans(a: Self, b: Self, c: Self)
        requires
            Self::spec_compare(a, b) == Comparison::Greater || Self::spec_compare(a, b)
                == Comparison::Equal,
            Self::spec_compare(b, c) == Comparison::Greater || Self::spec_compare(b, c)
                == Comparison::Equal,
        ensures
            Self::spec_compare(a, c) == Comparison::Greater || Self::spec_compare(a, c)
                == Comparison::Equal,
    ;

    /// Swapping the operands of a comparison swaps less and greater.
    proof fn lemma_compare_flip(a: Self, b: Self)
        ensures
            (Self::spec_compare(a, b) == Comparison::Less) == (Self::spec_compare(b, a)
                == Comparison::Greater),
            (Self::spec_compare(a, b) == Comparison::Equal) == (Self::spec_compare(b, a)
                == Comparison::Equal),
    ;

    /// Zero compares equal to itself, and takes nothing from itself.
    proof fn lemma_zero_self()
        ensures
            Self::spec_compare(Self::spec_zero(), Self::spec_zero()) == Comparison::Equal,
            Self::spec_sub(Self::spec_zero(), Self::spec_zero()) == Self::spec_zero(),
    ;

    /// The difference of two finite values is a number.
    proof fn lemma_sub_finite(a: Self, b: Self)
        requires
            Self::spec_is_finite(a),
            Self::spec_is_finite(b),
        ensures
            !Self::spec_is_nan(Self::spec_sub(a, b)),
    ;

    /// The length of a vector whose components are numbers is a number, zero
    /// or above.
    proof fn lemma_hypot_nonneg(dx: Self, dy: Self)
        requires
            !Self::spec_is_nan(dx),
            !Self::spec_is_nan(dy),
        ensures
            !Self::spec_is_nan(Self::spec_hypot(dx, dy)) && (Self::spec_hypot(dx, dy) == Self::spec_zero() || Self::spec_compare(Self::spec_hypot(dx, dy), Self::spec_zero())
                == Comparison::Greater),
    ;

    /// The sum of two values zero or above is zero or above, and adding to
    /// zero gives the other value.
    proof fn lemma_add_nonneg(a: Self, b: Self)
        requires
            !Self::spec_is_nan(a) && (a == Self::spec_zero() || Self::spec_compare(a, Self::spec_zero())
                == Comparison::Greater),
            !Self::spec_is_nan(b) && (b == Self::spec_zero() || Self::spec_compare(b, Self::spec_zero())
                == Comparison::Greater),
        ensures
            !Self::spec_is_nan(Self::spec_add(a, b)) && (Self::spec_add(a, b) == Self::spec_zero() || Self::spec_compare(Self::spec_add(a, b), Self::spec_zero())
                == Comparison::Greater),
            a == Self::spec_zero() ==> Self::spec_add(a, b) == b,
            Self::spec_compare(a, Self::spec_zero()) == Comparison::Greater || Self::spec_compare(
                b,
                Self::spec_zero(),
            ) == Comparison::Greater ==> Self::spec_compare(Self::spec_add(a, b), Self::spec_zero())
                == Comparison::Greater,
            Self::spec_is_finite(Self::spec_add(a, b)) ==> Self::spec_is_finite(a)
                && Self::spec_is_finite(b),
            Self::spec_compare(Self::spec_add(a, b), a) == Comparison::Greater
                || Self::spec_compare(Self::spec_add(a, b), a) == Comparison::Equal,
    ;

    /// A finite value zero or above, times zero, is zero.
    proof fn lemma_mul_zero(a: Self)
        requires
            !Self::spec_is_nan(a) && (a == Self::spec_zero() || Self::spec_compare(a, Self::spec_zero())
                == Comparison::Greater),
            Self::spec_is_finite(a),
        ensures
            Self::spec_mul(a, Self::spec_zero()) == Self::spec_zero(),
    ;

    /// Zero divided by a value above zero is zero.
    proof fn lemma_div_zero(b: Self)
        requires
            Self::spec_compare(b, Self::spec_zero()) == Comparison::Greater,
        ensures
            Self::spec_div(Self::spec_zero(), b) == Self::spec_zero(),
    ;

    /// A finite value above zero, times a value below zero, is a number at
    /// or below zero.
    proof fn lemma_mul_negative(a: Self, f: Self)
        requires
            Self::spec_is_finite(a),
            Self::spec_compare(a, Self::spec_zero()) == Comparison::Greater,
            Self::spec_compare(f, Self::spec_zero()) == Comparison::Less,
        ensures
            !Self::spec_is_nan(Self::spec_mul(a, f)),
            Self::spec_compare(Self::spec_mul(a, f), Self::spec_zero()) == Comparison::Less
                || Self::spec_compare(Self::spec_mul(a, f), Self::spec_zero()) == Comparison::Equal,
    ;

    /// Taking zero from a number leaves it unchanged.
    proof fn lemma_sub_zero(a: Self)
        requires
            !Self::spec_is_nan(a),
        ensures
            Self::spec_sub(a, Self::spec_zero()) == a,
    ;

    /// A number at or below zero, divided by a finite value above zero, is at
    /// or below zero.
    proof fn lemma_div_nonpositive(a: Self, b: Self)
        requires
            !Self::spec_is_nan(a),
            Self::spec_compare(a, Self::spec_zero()) == Comparison::Less || Self::spec_compare(
                a,
                Self::spec_zero(),
            ) == Comparison::Equal,
            Self::spec_is_finite(b),
            Self::spec_compare(b, Self::spec_zero()) == Comparison::Greater,
        ensures
            Self::spec_compare(Self::spec_div(a, b), Self::spec_zero()) == Comparison::Less
                || Self::spec_compare(Self::spec_div(a, b), Self::spec_zero()) == Comparison::Equal,
    ;

    /// A difference with a side that is not a number is not a number.
    proof fn lemma_sub_nan(a: Self, b: Self)
        requires
            Self::spec_is_nan(a) || Self::spec_is_nan(b),
        ensures
            Self::spec_is_nan(Self::spec_sub(a, b)),
    ;

    /// A sum with a side that is not a number is not a number.
    proof fn lemma_add_nan(a: Self, b: Self)
        requires
            Self::spec_is_nan(a) || Self::spec_is_nan(b),
        ensures
            Self::spec_is_nan(Self::spec_add(a, b)),
    ;

    /// The length of a vector with a component that is not a number, and no
    /// infinite component, is not a number.
    proof fn lemma_hypot_nan(dx: Self, dy: Self)
        requires
            Self::spec_is_nan(dx) || Self::spec_is_nan(dy),
            Self::spec_is_nan(dx) || Self::spec_is_finite(dx),
            Self::spec_is_nan(dy) || Self::spec_is_finite(dy),
        ensures
            Self::spec_is_nan(Self::spec_hypot(dx, dy)),
    ;

    fn zero() -> (r: Self)
        ensures
            r == Self::spec_zero(),
    ;

    fn one() -> (r: Self)
        ensures
            r == Self::spec_one(),
    ;

    fn add(a: Self, b: Self) -> (r: Self)
        ensures
            r == Self::spec_add(a, b),
    ;

    fn sub(a: Self, b: Self) -> (r: Self)
        ensures
            r == Self::spec_sub(a, b),
    ;

    fn mul(a: Self, b: Self) -> (r: Self)
        ensures
            r == Self::spec_mul(a, b),
    ;

    fn div(a: Self, b: Self) -> (r: Self)
        ensures
            r == Self::spec_div(a, b),
    ;

    fn hypot(dx: Self, dy: Self) -> (r: Self)
        ensures
            r == Self::spec_hypot(dx, dy),
    ;

    fn compare(a: Self, b: Self) -> (r: Comparison)
        ensures
            r == Self::spec_compare(a, b),
    ;

    fn is_finite(a: Self) -> (r: bool)
        ensures
            r == Self::spec_is_finite(a),
    ;
}

/// `a` is a number, and either zero itself or above zero.
/// (The laws of `Scalar` spell this out.)
pub open spec fn is_nonneg<T: Scalar>(a: T) -> bool {
    &&& !T::spec_is_nan(a)
    &&& (a == T::spec_zero() || T::spec_compare(a, T::spec_zero()) == Comparison::Greater)
}

} // verus!
