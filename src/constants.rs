use vstd::prelude::*;

use crate::scalar::Scalar;

verus! {

/// The table of physical constants, in SI units, that the core reads.
///
/// The table is built once by the caller and handed to the core by reference;
/// nothing in the core changes it. A caller may hand in another table to probe
/// how sensitive a result is to the constants.
#[allow(non_snake_case)]
#[derive(Clone, Copy, Debug)]
pub struct PhysicalConstants<T> {
    /// Elementary charge [C]
    pub e: T,
    /// Mass of an electron [kg]
    pub me: T,
    /// Permittivity of free space [F/m]
    pub eps0: T,
    /// Planck's constant [J s]
    pub h: T,
    /// Reduced Planck constant, `h / (2 pi)` [J s]
    pub h_bar: T,
    /// Speed of light in a vacuum [m/s]
    pub c: T,
    /// Energy of one electronvolt [J]
    pub eV: T,
    /// Bohr radius [m]
    pub a0: T,
    /// The circle constant
    pub pi: T,
}

} // verus!
