use vstd::prelude::*;

use crate::constants::PhysicalConstants;
use crate::scalar::{midpoint, spec_midpoint, Scalar};
use crate::solver::{solve, spec_solve, Params, SolverOptions};

verus! {

/// Why a bisection found no eigen energy.
#[derive(Clone, Copy, Debug, PartialEq, Eq, Structural)]
pub enum EigenError {
    /// `psi(r_end)` has no sign change over the given energy interval.
    NoBracket,
    /// Neither convergence test held within the given number of iterations.
    NotConverged,
}

impl EigenError {
    /// A sentence that says what went wrong.
    pub fn message(&self) -> (s: &'static str)
        ensures
            s@ == match self {
                EigenError::NoBracket =>
                    "No sign change of psi(r_end) in [e_low, e_high]; no eigenvalue bracketed."@,
                EigenError::NotConverged => "Bisection did not converge within max_iter."@,
            },
    {
        match self {
            EigenError::NoBracket =>
                "No sign change of psi(r_end) in [e_low, e_high]; no eigenvalue bracketed.",
            EigenError::NotConverged => "Bisection did not converge within max_iter.",
        }
    }
}

/// `params` with its energy replaced by `energy`.
pub open spec fn with_energy<T: Scalar>(energy: T, params: Params<T>) -> Params<T> {
    Params { E: energy, ..params }
}

/// `psi(r_end)` for the trial energy `energy`: the `y1` of the last point of
/// the trajectory.
pub open spec fn spec_psi_at_r_end<T: Scalar>(
    energy: T,
    params: Params<T>,
    opt: SolverOptions<T>,
    k: PhysicalConstants<T>,
) -> T {
    spec_solve(with_energy(energy, params), opt, k).last().1.y1
}

/// Integrates the radial equation for the trial energy `energy` (the energy
/// of `base_params` is ignored) and returns `psi` at the end of the interval.
#[allow(non_snake_case)]
pub fn psi_at_r_end<T: Scalar>(
    E: T,
    base_params: Params<T>,
    opt: SolverOptions<T>,
    k: &PhysicalConstants<T>,
) -> (psi: T)
    ensures
        psi == spec_psi_at_r_end(E, base_params, opt, *k),
{
    let params = Params { E, ..base_params };
    let result = solve(params, opt, k);
    result[result.len() - 1].1.y1
}

/// `0`
pub open spec fn spec_zero<T: Scalar>() -> T {
    T::spec_of_int(0)
}

/// The absolute tolerance on `psi(r_end)` below which a midpoint is taken as
/// the eigen energy: `1 / 10^8`. It is fixed, and independent of the
/// caller's tolerance on the energy.
pub open spec fn spec_psi_tolerance<T: Scalar>() -> T {
    T::spec_over(T::spec_of_int(1), T::spec_of_int(100_000_000))
}

/// The bracket after one bisection step, as `(e_low, e_high, psi_low)`: the
/// half `[e_low, e_mid]` where `psi_low psi_mid < 0`, else `[e_mid, e_high]`.
pub open spec fn spec_next_bracket<T: Scalar>(e_low: T, e_high: T, psi_low: T, e_mid: T, psi_mid: T) -> (
    T,
    T,
    T,
) {
    if T::spec_less(T::spec_times(psi_low, psi_mid), spec_zero()) {
        (e_low, e_mid, psi_low)
    } else {
        (e_mid, e_high, psi_mid)
    }
}

/// The outcome of at most `left` bisection steps on `[e_low, e_high]`.
pub open spec fn spec_bisect<T: Scalar>(
    e_low: T,
    e_high: T,
    psi_low: T,
    params: Params<T>,
    opt: SolverOptions<T>,
    k: PhysicalConstants<T>,
    tol_e: T,
    left: nat,
) -> Result<T, EigenError>
    decreases left,
{
    if left == 0 {
        Err(EigenError::NotConverged)
    } else {
        let e_mid = spec_midpoint(e_low, e_high);
        let psi_mid = spec_psi_at_r_end(e_mid, params, opt, k);
        if T::spec_less(T::spec_magnitude(psi_mid), spec_psi_tolerance()) {
            Ok(e_mid)
        } else {
            let b = spec_next_bracket(e_low, e_high, psi_low, e_mid, psi_mid);
            if T::spec_less(T::spec_magnitude(T::spec_minus(b.1, b.0)), tol_e) {
                Ok(spec_midpoint(b.0, b.1))
            } else {
                spec_bisect(b.0, b.1, b.2, params, opt, k, tol_e, (left - 1) as nat)
            }
        }
    }
}

/// The outcome of the shooting method on `[e_low, e_high]`.
pub open spec fn spec_find_eigen_energy<T: Scalar>(
    e_low: T,
    e_high: T,
    params: Params<T>,
    opt: SolverOptions<T>,
    k: PhysicalConstants<T>,
    tol_e: T,
    max_iter: nat,
) -> Result<T, EigenError> {
    let psi_low = spec_psi_at_r_end(e_low, params, opt, k);
    let psi_high = spec_psi_at_r_end(e_high, params, opt, k);
    if T::spec_less(spec_zero(), T::spec_times(psi_low, psi_high)) {
        Err(EigenError::NoBracket)
    } else {
        spec_bisect(e_low, e_high, psi_low, params, opt, k, tol_e, max_iter)
    }
}

/// Finds an eigen energy between `e_low` and `e_high` (J) by the shooting
/// method and bisection.
///
/// `NoBracket` when `psi(r_end)` at the two ends has a positive product.
/// Otherwise up to `max_iter` times: the midpoint is the answer when
/// `|psi(r_end)|` there is below `1 / 10^8`; else the half over which the
/// sign changes is kept (the upper half on a tie), and its midpoint is the
/// answer once its width is below `tol_e`. `NotConverged` when the iterations
/// run out.
pub fn find_eigen_energy_bisection<T: Scalar>(
    e_low: T,
    e_high: T,
    params: Params<T>,
    opt: SolverOptions<T>,
    k: &PhysicalConstants<T>,
    tol_e: T,
    max_iter: usize,
) -> (res: Result<T, EigenError>)
    ensures
        res == spec_find_eigen_energy(e_low, e_high, params, opt, *k, tol_e, max_iter as nat),
{
    let mut lo = e_low;
    let mut hi = e_high;
    let zero = T::of_int(0);
    let psi_tolerance = T::of_int(1).over(T::of_int(100_000_000));
    let mut psi_low = psi_at_r_end(e_low, params, opt, k);
    let psi_high = psi_at_r_end(e_high, params, opt, k);
    if zero.less(psi_low.times(psi_high)) {
        return Err(EigenError::NoBracket);
    }
    let mut i: usize = 0;
    while i < max_iter
        invariant
            i <= max_iter,
            spec_find_eigen_energy(e_low, e_high, params, opt, *k, tol_e, max_iter as nat) == spec_bisect(
                lo,
                hi,
                psi_low,
                params,
                opt,
                *k,
                tol_e,
                (max_iter - i) as nat,
            ),
            zero == spec_zero::<T>(),
            psi_tolerance == spec_psi_tolerance::<T>(),
        decreases max_iter - i,
    {
        let e_mid = midpoint(lo, hi);
        let psi_mid = psi_at_r_end(e_mid, params, opt, k);
        if psi_mid.magnitude().less(psi_tolerance) {
            return Ok(e_mid);
        }
        if psi_low.times(psi_mid).less(zero) {
            hi = e_mid;
        } else {
            lo = e_mid;
            psi_low = psi_mid;
        }
        if hi.minus(lo).magnitude().less(tol_e) {
            return Ok(midpoint(lo, hi));
        }
        i = i + 1;
    }
    Err(EigenError::NotConverged)
}

/// Each bisection step keeps one of the two halves of the bracket, split at
/// its midpoint: `[e_low, e_mid]` or `[e_mid, e_high]`. The bracket is never
/// widened, and in exact arithmetic its width is halved at every step.
pub proof fn lemma_bracket_halves<T: Scalar>(e_low: T, e_high: T, psi_low: T, psi_mid: T)
    ensures
        ({
            let e_mid = spec_midpoint(e_low, e_high);
            let b = spec_next_bracket(e_low, e_high, psi_low, e_mid, psi_mid);
            (b.0 == e_low && b.1 == e_mid) || (b.0 == e_mid && b.1 == e_high)
        }),
{
}

/// Bisection itself never reports a missing bracket.
proof fn lemma_bisect_not_no_bracket<T: Scalar>(
    e_low: T,
    e_high: T,
    psi_low: T,
    params: Params<T>,
    opt: SolverOptions<T>,
    k: PhysicalConstants<T>,
    tol_e: T,
    left: nat,
)
    ensures
        spec_bisect(e_low, e_high, psi_low, params, opt, k, tol_e, left) != Err::<T, EigenError>(
            EigenError::NoBracket,
        ),
    decreases left,
{
    if left > 0 {
        let e_mid = spec_midpoint(e_low, e_high);
        let psi_mid = spec_psi_at_r_end(e_mid, params, opt, k);
        let b = spec_next_bracket(e_low, e_high, psi_low, e_mid, psi_mid);
        lemma_bisect_not_no_bracket(b.0, b.1, b.2, params, opt, k, tol_e, (left - 1) as nat);
    }
}

/// On a degenerate interval `e_low == e_high == e` both ends give the same
/// `psi(r_end)`, so the search fails with `NoBracket` exactly when the square
/// of that value is positive (it goes on to bisect when the value is zero).
pub proof fn lemma_degenerate_interval<T: Scalar>(
    e: T,
    params: Params<T>,
    opt: SolverOptions<T>,
    k: PhysicalConstants<T>,
    tol_e: T,
    max_iter: nat,
)
    ensures
        ({
            let psi = spec_psi_at_r_end(e, params, opt, k);
            (spec_find_eigen_energy(e, e, params, opt, k, tol_e, max_iter) == Err::<T, EigenError>(
                EigenError::NoBracket,
            )) <==> T::spec_less(spec_zero(), T::spec_times(psi, psi))
        }),
{
    let psi = spec_psi_at_r_end(e, params, opt, k);
    lemma_bisect_not_no_bracket(e, e, psi, params, opt, k, tol_e, max_iter);
}

} // verus!
