//! A small simulator of charged point particles: protons, neutrons and
//! electrons that act on one another through a simplified Coulomb force and
//! move by forward Euler steps.
//!
//! * [`scalar`] and [`vector`]: double-precision numbers and 3-vectors.
//! * [`particle`]: a particle, its constants and its recorded history.
//! * [`atom`]: a nucleus with its electrons.
//! * [`simulation`]: the particle list and the step that advances it.

pub mod atom;
pub mod particle;
pub mod scalar;
pub mod simulation;
pub mod vector;
