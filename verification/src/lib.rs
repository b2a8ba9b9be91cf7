//! A deterministic simulation of two colliding hydrogen-like atoms.
//!
//! Four charged point particles (two proton/electron pairs) advance over
//! discrete time steps: pairwise Coulomb forces are applied directly to the
//! velocities, positions are extrapolated from the updated velocities, and a
//! distance-triggered collision rule exchanges the protons' velocities.
//!
//! All state is kept in fixed-point integer units (see `units`), so every
//! step is exact integer arithmetic and the whole pipeline is verified.

pub mod atom;
pub mod forces;
pub mod integrators;
pub mod math;
pub mod particle;
pub mod simulation;
pub mod units;
pub mod vec3;
