use vstd::prelude::*;

use crate::constants::PhysicalConstants;
use crate::scalar::Scalar;

verus! {

/// `(h c) / x`: photon energy from wavelength and back, the same formula.
pub open spec fn spec_h_c_over<T: Scalar>(k: PhysicalConstants<T>, x: T) -> T {
    T::spec_over(T::spec_times(k.h, k.c), x)
}

/// The energy (J) of a photon of wavelength `lambda` (m): `h c / lambda`.
#[allow(non_snake_case)]
pub fn photon_lambda_to_J<T: Scalar>(lambda: T, k: &PhysicalConstants<T>) -> (energy: T)
    ensures
        energy == spec_h_c_over(*k, lambda),
{
    k.h.times(k.c).over(lambda)
}

/// The energy (eV) of a photon of wavelength `lambda` (m).
#[allow(non_snake_case)]
pub fn photon_lambda_to_eV<T: Scalar>(lambda: T, k: &PhysicalConstants<T>) -> (energy: T)
    ensures
        energy == T::spec_over(spec_h_c_over(*k, lambda), k.eV),
{
    energy_J_to_eV(photon_lambda_to_J(lambda, k), k)
}

/// The wavelength (m) of a photon of energy `energy_J` (J): `h c / E`.
#[allow(non_snake_case)]
pub fn photon_J_to_lambda<T: Scalar>(energy_J: T, k: &PhysicalConstants<T>) -> (lambda: T)
    ensures
        lambda == spec_h_c_over(*k, energy_J),
{
    k.h.times(k.c).over(energy_J)
}

/// The wavelength (m) of a photon of energy `energy_eV` (eV).
#[allow(non_snake_case)]
pub fn photon_eV_to_lambda<T: Scalar>(energy_eV: T, k: &PhysicalConstants<T>) -> (lambda: T)
    ensures
        lambda == spec_h_c_over(*k, T::spec_times(energy_eV, k.eV)),
{
    photon_J_to_lambda(energy_eV_to_J(energy_eV, k), k)
}

/// Joules to electronvolts: `E / eV`.
#[allow(non_snake_case)]
pub fn energy_J_to_eV<T: Scalar>(energy_J: T, k: &PhysicalConstants<T>) -> (energy_eV: T)
    ensures
        energy_eV == T::spec_over(energy_J, k.eV),
{
    energy_J.over(k.eV)
}

/// Electronvolts to joules: `E * eV`.
#[allow(non_snake_case)]
pub fn energy_eV_to_J<T: Scalar>(energy_eV: T, k: &PhysicalConstants<T>) -> (energy_J: T)
    ensures
        energy_J == T::spec_times(energy_eV, k.eV),
{
    energy_eV.times(k.eV)
}

} // verus!
