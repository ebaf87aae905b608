//! Bound states of the hydrogen atom's radial Schroedinger equation, found by
//! integrating the equation with fixed-step Runge-Kutta and bisecting on the
//! energy (the shooting method).
//!
//! The core is generic over the scalar type it computes in (see
//! [`scalar::Scalar`]); the physical constants come in as a table.
pub mod constants;
pub mod conversions;
pub mod potential;
pub mod scalar;
pub mod solver;
pub mod energy_levels;
