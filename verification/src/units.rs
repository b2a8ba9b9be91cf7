//! The fixed-point unit system and the physical constants in it.
//!
//! All quantities are integers in these units:
//!   length       1e-17 m        time   1e-17 s       velocity  1 m/s
//!   mass         1e-34 kg       charge 1e-22 C       force     1e-17 N
//!
//! The units are chosen so that every physical constant of the system is an
//! exact integer, `velocity * time` is a length with no conversion factor,
//! and `force * time / mass` is a velocity with no conversion factor. In
//! these units Coulomb's constant `k = 8.9875e9 N*m^2/C^2` becomes
//! `k * (1e-22)^2 / ((1e-17)^2 * 1e-17) = 8.9875e16`.

use vstd::prelude::*;

verus! {

/// Coulomb's constant, 8.9875e9 N*m^2/C^2.
pub const COULOMB_CONSTANT: i128 = 89_875_000_000_000_000;

/// Proton mass, 1.6726e-27 kg.
pub const PROTON_MASS: i128 = 16_726_000;

/// Electron mass, 9.109e-31 kg.
pub const ELECTRON_MASS: i128 = 9_109;

/// Proton charge, 1.602e-19 C.
pub const PROTON_CHARGE: i128 = 1_602;

/// Electron charge, -1.602e-19 C.
pub const ELECTRON_CHARGE: i128 = -1_602;

/// Bohr radius, 5.29177e-11 m: the electron's initial offset from its proton.
pub const BOHR_RADIUS: i128 = 5_291_770;

/// Initial distance of each proton from the origin, 1e-10 m.
pub const INITIAL_SEPARATION: i128 = 10_000_000;

/// Initial speed of each atom's electron, 1e6 m/s.
pub const INITIAL_ELECTRON_SPEED: i128 = 1_000_000;

/// Default orbital speed given to a lone atom's electron, 2.2e6 m/s.
pub const ORBIT_SPEED: i128 = 2_200_000;

/// Planar proton-proton distance below which the collision response fires,
/// 5e-11 m.
pub const COLLISION_DISTANCE: i128 = 5_000_000;

/// Fixed y-velocity perturbation applied by the collision response, 1e5 m/s.
pub const COLLISION_KICK: i128 = 100_000;

/// Bound on every position component a step may start from, 1e-9 m.
pub const POS_LIMIT: i128 = 100_000_000;

/// Bound on every velocity component a step may start from, 1e9 m/s.
pub const VEL_LIMIT: i128 = 1_000_000_000;

/// Bound on every acceleration component a step may start from.
pub const ACC_LIMIT: i128 = 1_000_000_000;

/// Bound on a particle's mass, 1e-26 kg.
pub const MASS_LIMIT: i128 = 100_000_000;

/// Bound on the magnitude of a particle's charge, 1e-18 C.
pub const CHARGE_LIMIT: i128 = 10_000;

/// Bound on a single time step, 1e-15 s.
pub const DT_LIMIT: i128 = 100;

/// Bound on every component of a pairwise Coulomb force between in-bounds
/// particles: the numerator `k * q_a * q_b * r_i` at its largest, over the
/// smallest possible denominator 1.
pub const FORCE_LIMIT: i128 = COULOMB_CONSTANT * CHARGE_LIMIT * CHARGE_LIMIT * 2 * POS_LIMIT;

/// Bound on the velocity change a particle receives from one pair
/// interaction.
pub const DV_LIMIT: i128 = FORCE_LIMIT * DT_LIMIT;

/// Bound on every velocity component after the force phase: each particle
/// takes part in exactly three pair interactions.
pub const VEL_STEP_LIMIT: i128 = VEL_LIMIT + 3 * DV_LIMIT;

/// Bound on every position component after the integration phase.
pub const POS_STEP_LIMIT: i128 = POS_LIMIT + VEL_STEP_LIMIT * DT_LIMIT + ACC_LIMIT * DT_LIMIT
    * DT_LIMIT;

} // verus!
