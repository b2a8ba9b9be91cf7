//! A point-mass, point-charge kinematic record.

use crate::units::{ACC_LIMIT, CHARGE_LIMIT, MASS_LIMIT, POS_LIMIT, VEL_LIMIT};
use crate::vec3::{in_box, v3_zero, V3, Vec3};
use vstd::prelude::*;

verus! {

/// Mathematical model of a particle: unbounded integer mass, charge and
/// kinematic vectors.
#[verifier::ext_equal]
pub struct ParticleModel {
    pub mass: int,
    pub charge: int,
    pub pos: V3,
    pub vel: V3,
    pub acc: V3,
}

impl ParticleModel {
    /// A particle a step may start from: positive in-bounds mass and
    /// in-bounds charge, position, velocity and acceleration.
    pub open spec fn wf(self) -> bool {
        &&& 1 <= self.mass <= MASS_LIMIT
        &&& -CHARGE_LIMIT <= self.charge <= CHARGE_LIMIT
        &&& in_box(self.pos, POS_LIMIT as int)
        &&& in_box(self.vel, VEL_LIMIT as int)
        &&& in_box(self.acc, ACC_LIMIT as int)
    }
}

/// A charged point particle in fixed-point units (see `units`).
#[derive(Clone, Copy, PartialEq, Eq, Structural, Debug)]
pub struct Particle {
    pub mass: i128,
    pub charge: i128,
    pub position: Vec3,
    pub velocity: Vec3,
    pub acceleration: Vec3,
}

impl View for Particle {
    type V = ParticleModel;

    open spec fn view(&self) -> ParticleModel {
        ParticleModel {
            mass: self.mass as int,
            charge: self.charge as int,
            pos: self.position@,
            vel: self.velocity@,
            acc: self.acceleration@,
        }
    }
}

impl Particle {
    /// A particle of the given mass and charge, at rest at the origin.
    pub fn new(mass: i128, charge: i128) -> (p: Particle)
        requires
            1 <= mass <= MASS_LIMIT,
            -CHARGE_LIMIT <= charge <= CHARGE_LIMIT,
        ensures
            p@ == (ParticleModel {
                mass: mass as int,
                charge: charge as int,
                pos: v3_zero(),
                vel: v3_zero(),
                acc: v3_zero(),
            }),
            p@.wf(),
    {
        Particle {
            mass,
            charge,
            position: Vec3::zero(),
            velocity: Vec3::zero(),
            acceleration: Vec3::zero(),
        }
    }
}

} // verus!
