use vstd::prelude::*;

use crate::constants::PhysicalConstants;
use crate::scalar::Scalar;

verus! {

/// `-(e^4 / (4 pi eps0)) * (1 / r)`, with `e^4` formed as `(e e)(e e)`.
pub open spec fn spec_coulomb_potential<T: Scalar>(k: PhysicalConstants<T>, r: T) -> T {
    let e2 = T::spec_times(k.e, k.e);
    let e4 = T::spec_times(e2, e2);
    let denom = T::spec_times(T::spec_times(T::spec_of_int(4), k.pi), k.eps0);
    T::spec_times(
        T::spec_negate(T::spec_over(e4, denom)),
        T::spec_over(T::spec_of_int(1), r),
    )
}

/// The attractive potential energy of the electron at radius `r` from the
/// nucleus in this model, `-(e^4 / (4 pi eps0)) / r`. `r` must not be zero.
pub fn coulomb_potential<T: Scalar>(r: T, k: &PhysicalConstants<T>) -> (v: T)
    ensures
        v == spec_coulomb_potential(*k, r),
{
    let e2 = k.e.times(k.e);
    let e4 = e2.times(e2);
    let denom = T::of_int(4).times(k.pi).times(k.eps0);
    e4.over(denom).negate().times(T::of_int(1).over(r))
}

} // verus!
