use vstd::prelude::*;

use crate::constants::PhysicalConstants;
use crate::potential::{coulomb_potential, spec_coulomb_potential};
use crate::scalar::Scalar;

verus! {

/// A point of the first-order system: `y1 = psi(r)` and `y2 = psi'(r)`.
#[derive(Clone, Copy, Debug)]
pub struct State<T> {
    pub y1: T,
    pub y2: T,
}

/// The quantum numbers and the trial energy of a radial solution.
#[allow(non_snake_case)]
#[derive(Clone, Copy, Debug)]
pub struct Params<T> {
    /// Energy of the electron [J]
    pub E: T,
    /// Principal quantum number (a label; the radial equation does not read it)
    pub n: u16,
    /// Angular momentum quantum number
    pub l: u16,
    /// Magnetic quantum number (a label; the radial equation does not read it)
    pub m: i16,
}

/// The radial interval, the step, and the values of `psi` and `psi'` at
/// `r_start`. `r_start` must be positive: the equation is singular at zero.
#[derive(Clone, Copy, Debug)]
pub struct SolverOptions<T> {
    pub r_start: T,
    pub r_end: T,
    pub step_size: T,
    pub psi0: T,
    pub psi_prime0: T,
}

/// A first-order vector field `(r, state) -> d state / dr`, the right-hand
/// side that the integrator samples.
pub trait Derivative<T: Scalar> {
    spec fn spec_eval(&self, r: T, s: State<T>) -> State<T>;

    fn eval(&self, r: T, s: State<T>) -> (d: State<T>)
        ensures
            d == self.spec_eval(r, s),
    ;
}

/// `a(r) = (2 me / hbar^2) (E - V(r) - l(l+1) hbar^2 / (2 me r^2))`
pub open spec fn spec_radial_a<T: Scalar>(r: T, params: Params<T>, k: PhysicalConstants<T>) -> T {
    let two = T::spec_of_int(2);
    let hb2 = T::spec_times(k.h_bar, k.h_bar);
    let two_me = T::spec_times(two, k.me);
    let ll = T::spec_of_int(((params.l as u32) * (params.l as u32 + 1)) as u32);
    let centrifugal = T::spec_over(
        T::spec_times(ll, hb2),
        T::spec_times(T::spec_times(two_me, r), r),
    );
    T::spec_times(
        T::spec_over(two_me, hb2),
        T::spec_minus(T::spec_minus(params.E, spec_coulomb_potential(k, r)), centrifugal),
    )
}

/// `(psi', -(2 / r) psi' - a(r) psi)`
pub open spec fn spec_radial_rhs<T: Scalar>(
    r: T,
    s: State<T>,
    params: Params<T>,
    k: PhysicalConstants<T>,
) -> State<T> {
    let two_over_r = T::spec_over(T::spec_of_int(2), r);
    State {
        y1: s.y2,
        y2: T::spec_minus(
            T::spec_times(T::spec_negate(two_over_r), s.y2),
            T::spec_times(spec_radial_a(r, params, k), s.y1),
        ),
    }
}

/// The radial equation `psi'' = -(2/r) psi' - a(r) psi` as a first-order
/// system: the derivative of `(psi, psi')` at radius `r` (which must not be
/// zero).
pub fn radial_rhs<T: Scalar>(r: T, s: State<T>, params: &Params<T>, k: &PhysicalConstants<T>) -> (d:
    State<T>)
    ensures
        d == spec_radial_rhs(r, s, *params, *k),
{
    let potential = coulomb_potential(r, k);
    let two = T::of_int(2);
    let hb2 = k.h_bar.times(k.h_bar);
    let two_me = two.times(k.me);
    let l = params.l as u32;
    proof {
        assert(l * (l + 1) <= 65535 * 65536) by (nonlinear_arith)
            requires
                l <= 65535,
        ;
    }
    let ll = T::of_int(l * (l + 1));
    let centrifugal = ll.times(hb2).over(two_me.times(r).times(r));
    let a = two_me.over(hb2).times(params.E.minus(potential).minus(centrifugal));
    let psi_second = two.over(r).negate().times(s.y2).minus(a.times(s.y1));
    State { y1: s.y2, y2: psi_second }
}

/// The radial equation of the hydrogen atom for given quantum numbers and
/// energy, as a vector field.
#[derive(Clone, Copy, Debug)]
pub struct RadialEquation<T> {
    pub params: Params<T>,
    pub constants: PhysicalConstants<T>,
}

impl<T: Scalar> Derivative<T> for RadialEquation<T> {
    open spec fn spec_eval(&self, r: T, s: State<T>) -> State<T> {
        spec_radial_rhs(r, s, self.params, self.constants)
    }

    fn eval(&self, r: T, s: State<T>) -> (d: State<T>) {
        radial_rhs(r, s, &self.params, &self.constants)
    }
}

/// `s + c k`, componentwise.
pub open spec fn spec_shift<T: Scalar>(s: State<T>, c: T, k: State<T>) -> State<T> {
    State { y1: T::spec_plus(s.y1, T::spec_times(c, k.y1)), y2: T::spec_plus(s.y2, T::spec_times(c, k.y2)) }
}

/// `y + (h / 6) (k1 + 2 k2 + 2 k3 + k4)` for one component.
pub open spec fn spec_combine<T: Scalar>(y: T, h: T, k1: T, k2: T, k3: T, k4: T) -> T {
    let two = T::spec_of_int(2);
    let sum = T::spec_plus(
        T::spec_plus(T::spec_plus(k1, T::spec_times(two, k2)), T::spec_times(two, k3)),
        k4,
    );
    T::spec_plus(y, T::spec_times(T::spec_over(h, T::spec_of_int(6)), sum))
}

/// One classical fourth-order Runge-Kutta step of size `h` from `(r, s)`.
pub open spec fn spec_rk4_step<T: Scalar, F: Derivative<T>>(f: F, r: T, s: State<T>, h: T) -> State<T> {
    let half = T::spec_over(h, T::spec_of_int(2));
    let k1 = f.spec_eval(r, s);
    let k2 = f.spec_eval(T::spec_plus(r, half), spec_shift(s, half, k1));
    let k3 = f.spec_eval(T::spec_plus(r, half), spec_shift(s, half, k2));
    let k4 = f.spec_eval(T::spec_plus(r, h), spec_shift(s, h, k3));
    State {
        y1: spec_combine(s.y1, h, k1.y1, k2.y1, k3.y1, k4.y1),
        y2: spec_combine(s.y2, h, k1.y2, k2.y2, k3.y2, k4.y2),
    }
}

fn shift<T: Scalar>(s: State<T>, c: T, k: State<T>) -> (r: State<T>)
    ensures
        r == spec_shift(s, c, k),
{
    State { y1: s.y1.plus(c.times(k.y1)), y2: s.y2.plus(c.times(k.y2)) }
}

fn combine<T: Scalar>(y: T, h: T, k1: T, k2: T, k3: T, k4: T) -> (r: T)
    ensures
        r == spec_combine(y, h, k1, k2, k3, k4),
{
    let two = T::of_int(2);
    let sum = k1.plus(two.times(k2)).plus(two.times(k3)).plus(k4);
    y.plus(h.over(T::of_int(6)).times(sum))
}

/// Advances `s` from `r` by one step `h` of classical RK4: `k1` at `r`, `k2`
/// and `k3` at `r + h/2`, `k4` at `r + h`, combined with weights 1, 2, 2, 1.
/// The result is a function of `(f, r, s, h)` alone.
pub fn rk4_step<T: Scalar, F: Derivative<T>>(f: &F, r: T, s: State<T>, h: T) -> (next: State<T>)
    ensures
        next == spec_rk4_step(*f, r, s, h),
{
    let half = h.over(T::of_int(2));
    let k1 = f.eval(r, s);
    let k2 = f.eval(r.plus(half), shift(s, half, k1));
    let k3 = f.eval(r.plus(half), shift(s, half, k2));
    let k4 = f.eval(r.plus(h), shift(s, h, k3));
    State {
        y1: combine(s.y1, h, k1.y1, k2.y1, k3.y1, k4.y1),
        y2: combine(s.y2, h, k1.y2, k2.y2, k3.y2, k4.y2),
    }
}

/// The `i`-th point of the walk from `(r0, s0)`: the radius advances by `h`
/// and the state by one RK4 step at a time.
pub open spec fn spec_point<T: Scalar, F: Derivative<T>>(
    f: F,
    r0: T,
    h: T,
    s0: State<T>,
    i: nat,
) -> (T, State<T>)
    decreases i,
{
    if i == 0 {
        (r0, s0)
    } else {
        let p = spec_point(f, r0, h, s0, (i - 1) as nat);
        (T::spec_plus(p.0, h), spec_rk4_step(f, p.0, p.1, h))
    }
}

/// The number of points recorded when `n` have been: the walk goes on while
/// the next radius is at most `r_end`, and a trajectory holds at most
/// `usize::MAX` points.
pub open spec fn spec_len_from<T: Scalar, F: Derivative<T>>(
    f: F,
    r0: T,
    r_end: T,
    h: T,
    s0: State<T>,
    n: nat,
) -> nat
    decreases usize::MAX - n,
{
    if n >= usize::MAX || !T::spec_at_most(spec_point(f, r0, h, s0, n).0, r_end) {
        n
    } else {
        spec_len_from(f, r0, r_end, h, s0, n + 1)
    }
}

/// The trajectory from `(r_start, s0)` to `r_end` in steps of `h`: the first
/// point always, then each further point whose radius is at most `r_end`,
/// until the first one that is not.
pub open spec fn spec_trajectory<T: Scalar, F: Derivative<T>>(
    f: F,
    r_start: T,
    r_end: T,
    h: T,
    s0: State<T>,
) -> Seq<(T, State<T>)> {
    Seq::new(spec_len_from(f, r_start, r_end, h, s0, 1), |i: int| spec_point(f, r_start, h, s0, i as nat))
}

/// A trajectory never has fewer points than have been recorded.
proof fn lemma_len_from_at_least<T: Scalar, F: Derivative<T>>(
    f: F,
    r0: T,
    r_end: T,
    h: T,
    s0: State<T>,
    n: nat,
)
    ensures
        spec_len_from(f, r0, r_end, h, s0, n) >= n,
    decreases usize::MAX - n,
{
    if !(n >= usize::MAX || !T::spec_at_most(spec_point(f, r0, h, s0, n).0, r_end)) {
        lemma_len_from_at_least(f, r0, r_end, h, s0, n + 1);
    }
}

/// Each point recorded after the first has a radius of at most `r_end`.
proof fn lemma_recorded_within<T: Scalar, F: Derivative<T>>(
    f: F,
    r0: T,
    r_end: T,
    h: T,
    s0: State<T>,
    n: nat,
    i: nat,
)
    requires
        1 <= n <= i < spec_len_from(f, r0, r_end, h, s0, n),
    ensures
        T::spec_at_most(spec_point(f, r0, h, s0, i).0, r_end),
    decreases i - n,
{
    if n < i {
        lemma_recorded_within(f, r0, r_end, h, s0, n + 1, i);
    }
}

/// Walks `s0` from `r_start` in steps of `h`: records the current radius and
/// state, advances by one RK4 step, and goes on while the radius is at most
/// `r_end`. The first point is recorded whatever `r_end` is.
pub fn integrate<T: Scalar, F: Derivative<T>>(f: &F, r_start: T, r_end: T, h: T, s0: State<T>) -> (out:
    Vec<(T, State<T>)>)
    ensures
        out@ == spec_trajectory(*f, r_start, r_end, h, s0),
        out@.len() >= 1,
        out@[0] == (r_start, s0),
        forall|i: int|
            1 <= i < out@.len() ==> {
                &&& (#[trigger] out@[i]).0 == T::spec_plus(out@[i - 1].0, h)
                &&& out@[i].1 == spec_rk4_step(*f, out@[i - 1].0, out@[i - 1].1, h)
                &&& T::spec_at_most(out@[i].0, r_end)
            },
{
    let ghost traj = spec_trajectory(*f, r_start, r_end, h, s0);
    let mut data: Vec<(T, State<T>)> = Vec::new();
    let mut r = r_start;
    let mut s = s0;
    data.push((r, s));
    let mut done = false;
    while !done
        invariant
            1 <= data@.len() <= usize::MAX,
            traj == spec_trajectory(*f, r_start, r_end, h, s0),
            spec_len_from(*f, r_start, r_end, h, s0, 1) == spec_len_from(
                *f,
                r_start,
                r_end,
                h,
                s0,
                data@.len() as nat,
            ),
            forall|i: int|
                0 <= i < data@.len() ==> #[trigger] data@[i] == spec_point(
                    *f,
                    r_start,
                    h,
                    s0,
                    i as nat,
                ),
            !done ==> (r, s) == spec_point(*f, r_start, h, s0, (data@.len() - 1) as nat),
            done ==> spec_len_from(*f, r_start, r_end, h, s0, data@.len() as nat) == data@.len(),
        decreases usize::MAX - data@.len() + (if done { 0int } else { 1int }),
    {
        if data.len() == usize::MAX {
            done = true;
        } else {
            s = rk4_step(f, r, s, h);
            r = r.plus(h);
            proof {
                assert((r, s) == spec_point(*f, r_start, h, s0, data@.len() as nat));
            }
            if r.at_most(r_end) {
                data.push((r, s));
            } else {
                done = true;
            }
        }
    }
    proof {
        lemma_len_from_at_least(*f, r_start, r_end, h, s0, 1);
        assert(data@ =~= traj);
        assert forall|i: int| 1 <= i < data@.len() implies T::spec_at_most(
            (#[trigger] data@[i]).0,
            r_end,
        ) by {
            lemma_recorded_within(*f, r_start, r_end, h, s0, 1, i as nat);
        }
    }
    data
}

/// The radial wavefunction of `params` integrated over the interval of
/// `opt`, as the list of `(r, (psi, psi'))` points. Never empty: the first
/// point is `(r_start, (psi0, psi_prime0))`.
pub fn solve<T: Scalar>(params: Params<T>, opt: SolverOptions<T>, k: &PhysicalConstants<T>) -> (out: Vec<
    (T, State<T>),
>)
    ensures
        out@ == spec_solve(params, opt, *k),
        out@.len() >= 1,
        out@[0] == (opt.r_start, State { y1: opt.psi0, y2: opt.psi_prime0 }),
        forall|i: int|
            1 <= i < out@.len() ==> {
                &&& (#[trigger] out@[i]).0 == T::spec_plus(out@[i - 1].0, opt.step_size)
                &&& T::spec_at_most(out@[i].0, opt.r_end)
            },
{
    let f = RadialEquation { params, constants: *k };
    let out = integrate(&f, opt.r_start, opt.r_end, opt.step_size, State { y1: opt.psi0, y2: opt.psi_prime0 });
    out
}

/// The trajectory that `solve` returns.
pub open spec fn spec_solve<T: Scalar>(params: Params<T>, opt: SolverOptions<T>, k: PhysicalConstants<T>) -> Seq<
    (T, State<T>),
> {
    spec_trajectory(
        RadialEquation { params, constants: k },
        opt.r_start,
        opt.r_end,
        opt.step_size,
        State { y1: opt.psi0, y2: opt.psi_prime0 },
    )
}

} // verus!
