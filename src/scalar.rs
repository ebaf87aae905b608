use vstd::prelude::*;

verus! {

/// The scalar field the numerical core computes in.
///
/// Each operation is described by a spec function of its operands alone, so
/// every computation of the core is a pure function of its inputs. Nothing
/// more is assumed of the arithmetic: in particular no algebraic law (an
/// implementation in binary floating point rounds), which is why the
/// contracts of the core are stated as the exact compositions of these
/// operations that the algorithms perform.
pub trait Scalar: Sized + Copy {
    spec fn spec_plus(a: Self, b: Self) -> Self;

    spec fn spec_minus(a: Self, b: Self) -> Self;

    spec fn spec_times(a: Self, b: Self) -> Self;

    spec fn spec_over(a: Self, b: Self) -> Self;

    spec fn spec_negate(a: Self) -> Self;

    spec fn spec_magnitude(a: Self) -> Self;

    spec fn spec_less(a: Self, b: Self) -> bool;

    spec fn spec_at_most(a: Self, b: Self) -> bool;

    spec fn spec_of_int(n: u32) -> Self;

    /// `a + b`
    fn plus(self, b: Self) -> (r: Self)
        ensures
            r == Self::spec_plus(self, b),
    ;

    /// `a - b`
    fn minus(self, b: Self) -> (r: Self)
        ensures
            r == Self::spec_minus(self, b),
    ;

    /// `a * b`
    fn times(self, b: Self) -> (r: Self)
        ensures
            r == Self::spec_times(self, b),
    ;

    /// `a / b`
    fn over(self, b: Self) -> (r: Self)
        ensures
            r == Self::spec_over(self, b),
    ;

    /// `-a`
    fn negate(self) -> (r: Self)
        ensures
            r == Self::spec_negate(self),
    ;

    /// `|a|`
    fn magnitude(self) -> (r: Self)
        ensures
            r == Self::spec_magnitude(self),
    ;

    /// `a < b`
    fn less(self, b: Self) -> (r: bool)
        ensures
            r == Self::spec_less(self, b),
    ;

    /// `a <= b`
    fn at_most(self, b: Self) -> (r: bool)
        ensures
            r == Self::spec_at_most(self, b),
    ;

    /// The integer `n` as a scalar.
    fn of_int(n: u32) -> (r: Self)
        ensures
            r == Self::spec_of_int(n),
    ;
}

/// `(a + b) / 2`
pub open spec fn spec_midpoint<T: Scalar>(a: T, b: T) -> T {
    T::spec_over(T::spec_plus(a, b), T::spec_of_int(2))
}

/// The midpoint of `a` and `b`, computed as `(a + b) / 2`.
pub fn midpoint<T: Scalar>(a: T, b: T) -> (r: T)
    ensures
        r == spec_midpoint(a, b),
{
    a.plus(b).over(T::of_int(2))
}

} // verus!
