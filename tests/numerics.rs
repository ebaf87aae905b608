use hydrogen_orb_core::constants::PhysicalConstants;
use hydrogen_orb_core::conversions::{
    energy_J_to_eV, energy_eV_to_J, photon_J_to_lambda, photon_eV_to_lambda, photon_lambda_to_J,
    photon_lambda_to_eV,
};
use hydrogen_orb_core::energy_levels::{find_eigen_energy_bisection, psi_at_r_end, EigenError};
use hydrogen_orb_core::potential::coulomb_potential;
use hydrogen_orb_core::scalar::{midpoint, Scalar};
use hydrogen_orb_core::solver::{
    integrate, radial_rhs, rk4_step, solve, Derivative, Params, SolverOptions, State,
};

/// Double-precision scalar.
#[derive(Clone, Copy, Debug, PartialEq)]
struct F(f64);

impl Scalar for F {
    fn spec_plus(a: F, b: F) -> F {
        F(a.0 + b.0)
    }
    fn spec_minus(a: F, b: F) -> F {
        F(a.0 - b.0)
    }
    fn spec_times(a: F, b: F) -> F {
        F(a.0 * b.0)
    }
    fn spec_over(a: F, b: F) -> F {
        F(a.0 / b.0)
    }
    fn spec_negate(a: F) -> F {
        F(-a.0)
    }
    fn spec_magnitude(a: F) -> F {
        F(a.0.abs())
    }
    fn spec_less(a: F, b: F) -> bool {
        a.0 < b.0
    }
    fn spec_at_most(a: F, b: F) -> bool {
        a.0 <= b.0
    }
    fn spec_of_int(n: u32) -> F {
        F(n as f64)
    }
    fn plus(self, b: F) -> F {
        F::spec_plus(self, b)
    }
    fn minus(self, b: F) -> F {
        F::spec_minus(self, b)
    }
    fn times(self, b: F) -> F {
        F::spec_times(self, b)
    }
    fn over(self, b: F) -> F {
        F::spec_over(self, b)
    }
    fn negate(self) -> F {
        F::spec_negate(self)
    }
    fn magnitude(self) -> F {
        F::spec_magnitude(self)
    }
    fn less(self, b: F) -> bool {
        F::spec_less(self, b)
    }
    fn at_most(self, b: F) -> bool {
        F::spec_at_most(self, b)
    }
    fn of_int(n: u32) -> F {
        F::spec_of_int(n)
    }
}

const E_CHARGE: f64 = 1.602176634e-19;
const ME: f64 = 9.109383713928e-31;
const EPS0: f64 = 8.854187818814e-12;
const H: f64 = 6.62607015e-34;
const C: f64 = 2.99792458e8;
const EV: f64 = 1.602176634e-19;
const A0: f64 = 5.29177210544e-11;

fn si() -> PhysicalConstants<F> {
    PhysicalConstants {
        e: F(E_CHARGE),
        me: F(ME),
        eps0: F(EPS0),
        h: F(H),
        h_bar: F(H / (2.0 * std::f64::consts::PI)),
        c: F(C),
        eV: F(EV),
        a0: F(A0),
        pi: F(std::f64::consts::PI),
    }
}

/// The table with `e` replaced by `sqrt(e)`, so that the model's `e^4`
/// becomes the charge squared of the textbook Coulomb potential.
fn textbook_coulomb() -> PhysicalConstants<F> {
    PhysicalConstants { e: F(E_CHARGE.sqrt()), ..si() }
}

fn ground_state() -> Params<F> {
    Params { E: F(0.0), n: 1, l: 0, m: 0 }
}

fn ground_state_options() -> SolverOptions<F> {
    SolverOptions {
        r_start: F(1e-4 * A0),
        r_end: F(50.0 * A0),
        step_size: F(2.5e-4 * A0),
        psi0: F(0.1),
        psi_prime0: F(0.0),
    }
}

/// `y'' = -y`
struct Oscillator;

impl Derivative<F> for Oscillator {
    fn spec_eval(&self, r: F, s: State<F>) -> State<F> {
        self.eval(r, s)
    }
    fn eval(&self, _r: F, s: State<F>) -> State<F> {
        State { y1: s.y2, y2: s.y1.negate() }
    }
}

fn close(a: f64, b: f64, rel: f64) -> bool {
    (a - b).abs() <= rel * b.abs().max(a.abs())
}

#[test]
fn midpoint_of_two_values() {
    assert_eq!(midpoint(F(1.0), F(2.0)), F(1.5));
    assert_eq!(midpoint(F(-3.0), F(-3.0)), F(-3.0));
}

#[test]
fn coulomb_potential_at_bohr_radius() {
    let k = si();
    let v = coulomb_potential(F(A0), &k);
    let e4 = (E_CHARGE * E_CHARGE) * (E_CHARGE * E_CHARGE);
    let expected = -(e4 / (4.0 * std::f64::consts::PI * EPS0)) * (1.0 / A0);
    assert_eq!(v.0, expected);
    assert!(v.0 < 0.0);
    assert!(close(v.0, -1.1191e-55, 1e-3));
}

#[test]
fn coulomb_potential_is_pure() {
    let k = si();
    let a = coulomb_potential(F(2.0 * A0), &k);
    let b = coulomb_potential(F(2.0 * A0), &k);
    assert_eq!(a, b);
}

#[test]
fn radial_rhs_matches_formula() {
    let k = si();
    let params = Params { E: F(-13.6 * EV), n: 2, l: 1, m: 0 };
    let r = 2.0 * A0;
    let s = State { y1: F(0.3), y2: F(-1.0e9) };
    let d = radial_rhs(F(r), s, &params, &k);
    let h_bar = H / (2.0 * std::f64::consts::PI);
    let e4 = (E_CHARGE * E_CHARGE) * (E_CHARGE * E_CHARGE);
    let v = -(e4 / (4.0 * std::f64::consts::PI * EPS0)) * (1.0 / r);
    let a = ((2.0 * ME) / (h_bar * h_bar))
        * (-13.6 * EV - v - (2.0 * (h_bar * h_bar)) / (2.0 * ME * r * r));
    let psi_second = -(2.0 / r) * -1.0e9 - a * 0.3;
    assert_eq!(d.y1, F(-1.0e9));
    assert!(close(d.y2.0, psi_second, 1e-12));
}

#[test]
fn radial_rhs_is_pure() {
    let k = si();
    let params = Params { E: F(-3.4 * EV), n: 2, l: 0, m: 0 };
    let s = State { y1: F(1.0), y2: F(2.0) };
    let a = radial_rhs(F(A0), s, &params, &k);
    let b = radial_rhs(F(A0), s, &params, &k);
    assert_eq!(a.y1, b.y1);
    assert_eq!(a.y2, b.y2);
}

#[test]
fn rk4_step_on_oscillator() {
    let h = 0.1;
    let next = rk4_step(&Oscillator, F(0.0), State { y1: F(1.0), y2: F(0.0) }, F(h));
    let y1 = 1.0 - h * h / 2.0 + h * h * h * h / 24.0;
    let y2 = -h + h * h * h / 6.0;
    assert!((next.y1.0 - y1).abs() < 1e-15);
    assert!((next.y2.0 - y2).abs() < 1e-15);
}

#[test]
fn rk4_step_is_deterministic() {
    let k = si();
    let f = hydrogen_orb_core::solver::RadialEquation { params: ground_state(), constants: k };
    let s = State { y1: F(0.1), y2: F(0.0) };
    let a = rk4_step(&f, F(A0), s, F(0.01 * A0));
    let b = rk4_step(&f, F(A0), s, F(0.01 * A0));
    assert_eq!(a.y1, b.y1);
    assert_eq!(a.y2, b.y2);
}

#[test]
fn integrate_records_every_step_up_to_r_end() {
    let out = integrate(&Oscillator, F(1.0), F(2.0), F(0.25), State { y1: F(1.0), y2: F(0.0) });
    let radii: Vec<f64> = out.iter().map(|p| p.0 .0).collect();
    assert_eq!(radii, vec![1.0, 1.25, 1.5, 1.75, 2.0]);
    let second = rk4_step(&Oscillator, F(1.0), State { y1: F(1.0), y2: F(0.0) }, F(0.25));
    assert_eq!(out[1].1.y1, second.y1);
    assert_eq!(out[1].1.y2, second.y2);
}

#[test]
fn solve_starts_at_initial_condition_and_increases() {
    let opt = SolverOptions {
        r_start: F(1e-2 * A0),
        r_end: F(2.0 * A0),
        step_size: F(0.01 * A0),
        psi0: F(0.1),
        psi_prime0: F(0.5),
    };
    let out = solve(ground_state(), opt, &si());
    assert_eq!(out[0].0, F(1e-2 * A0));
    assert_eq!(out[0].1.y1, F(0.1));
    assert_eq!(out[0].1.y2, F(0.5));
    for i in 1..out.len() {
        assert!(out[i].0 .0 > out[i - 1].0 .0);
        assert!(out[i].0 .0 <= 2.0 * A0);
    }
    assert!(out.len() >= 199 && out.len() <= 200);
}

#[test]
fn solve_reversed_interval_keeps_initial_point() {
    let opt = SolverOptions {
        r_start: F(2.0 * A0),
        r_end: F(1.0 * A0),
        step_size: F(0.01 * A0),
        psi0: F(0.25),
        psi_prime0: F(-1.0),
    };
    let out = solve(ground_state(), opt, &si());
    assert_eq!(out.len(), 1);
    assert_eq!(out[0].0, F(2.0 * A0));
    assert_eq!(out[0].1.y1, F(0.25));
    assert_eq!(out[0].1.y2, F(-1.0));
}

#[test]
fn psi_at_r_end_is_last_point_of_solve() {
    let opt = SolverOptions {
        r_start: F(1e-2 * A0),
        r_end: F(5.0 * A0),
        step_size: F(0.01 * A0),
        psi0: F(0.1),
        psi_prime0: F(0.0),
    };
    let k = textbook_coulomb();
    let psi = psi_at_r_end(F(-13.0 * EV), ground_state(), opt, &k);
    let params = Params { E: F(-13.0 * EV), ..ground_state() };
    let out = solve(params, opt, &k);
    assert_eq!(psi, out[out.len() - 1].1.y1);
}

#[test]
fn degenerate_interval_has_no_bracket() {
    let k = si();
    let res = find_eigen_energy_bisection(
        F(0.0),
        F(0.0),
        ground_state(),
        ground_state_options(),
        &k,
        F(1e-8 * EV),
        60,
    );
    assert_eq!(res, Err(EigenError::NoBracket));
}

#[test]
fn ground_state_energy_is_recovered() {
    let k = textbook_coulomb();
    let res = find_eigen_energy_bisection(
        F(-13.5 * EV),
        F(-13.7 * EV),
        ground_state(),
        ground_state_options(),
        &k,
        F(1e-8 * EV),
        60,
    );
    let e = res.expect("the ground state is bracketed").0 / EV;
    assert!((e + 13.6).abs() < 0.02, "found {e} eV");
}

#[test]
fn bisection_stops_when_iterations_run_out() {
    let k = textbook_coulomb();
    let res = find_eigen_energy_bisection(
        F(-13.5 * EV),
        F(-13.7 * EV),
        ground_state(),
        ground_state_options(),
        &k,
        F(1e-8 * EV),
        0,
    );
    assert_eq!(res, Err(EigenError::NotConverged));
}

#[test]
fn bracket_halves_each_iteration() {
    // a bracket of 0.2 eV needs 25 halvings to fall under 1e-8 eV
    let k = textbook_coulomb();
    let run = |max_iter: usize| {
        find_eigen_energy_bisection(
            F(-13.5 * EV),
            F(-13.7 * EV),
            ground_state(),
            ground_state_options(),
            &k,
            F(1e-8 * EV),
            max_iter,
        )
    };
    assert_eq!(run(24), Err(EigenError::NotConverged));
    assert!(run(25).is_ok());
}

#[test]
fn energy_units_convert() {
    let k = si();
    assert_eq!(energy_J_to_eV(F(EV), &k), F(1.0));
    assert_eq!(energy_eV_to_J(F(2.0), &k), F(2.0 * EV));
    assert_eq!(energy_J_to_eV(F(-13.6 * EV), &k).0, -13.6 * EV / EV);
}

#[test]
fn photon_wavelength_and_energy_convert() {
    let k = si();
    let lambda = 500e-9;
    let e_j = photon_lambda_to_J(F(lambda), &k);
    assert_eq!(e_j.0, (H * C) / lambda);
    assert!(close(photon_lambda_to_eV(F(lambda), &k).0, 2.4797, 1e-4));
    assert!(close(photon_J_to_lambda(e_j, &k).0, lambda, 1e-12));
    assert!(close(photon_eV_to_lambda(F(2.4797), &k).0, lambda, 1e-4));
}

#[test]
fn eigen_errors_have_messages() {
    assert_eq!(
        EigenError::NoBracket.message(),
        "No sign change of psi(r_end) in [e_low, e_high]; no eigenvalue bracketed."
    );
    assert_eq!(EigenError::NotConverged.message(), "Bisection did not converge within max_iter.");
}
