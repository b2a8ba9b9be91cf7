//! Position integration: quadratic extrapolation from the current velocity
//! and acceleration, after which the acceleration field is cleared.
//!
//! The orchestrator never writes the acceleration field — velocity changes
//! are applied directly — so within a simulation step the quadratic term is
//! always zero and this integrator acts as linear extrapolation from the
//! already-updated velocity (semi-implicit Euler). The general rule is kept
//! so the function stands on its own.

use crate::math::{div_toward_zero, div_trunc, lemma_mul_bound};
use crate::particle::{Particle, ParticleModel};
use crate::units::{ACC_LIMIT, DT_LIMIT, POS_LIMIT, POS_STEP_LIMIT, VEL_STEP_LIMIT};
use crate::vec3::{in_box, v3_zero, V3};
use vstd::prelude::*;

verus! {

/// One integration step: `pos += vel * dt + (acc * dt^2) / 2` with every
/// product rounded toward zero, then `acc` is cleared.
pub open spec fn integrate_model(p: ParticleModel, dt: int) -> ParticleModel {
    ParticleModel {
        mass: p.mass,
        charge: p.charge,
        pos: V3 {
            x: p.pos.x + p.vel.x * dt + div_trunc(p.acc.x * dt * dt, 2),
            y: p.pos.y + p.vel.y * dt + div_trunc(p.acc.y * dt * dt, 2),
            z: p.pos.z + p.vel.z * dt + div_trunc(p.acc.z * dt * dt, 2),
        },
        vel: p.vel,
        acc: v3_zero(),
    }
}

/// Advance one particle's position by one step of size `dt`.
pub fn verlet_integrate(particle: &mut Particle, dt: i128)
    requires
        0 <= dt <= DT_LIMIT,
        in_box(old(particle)@.pos, POS_LIMIT as int),
        in_box(old(particle)@.vel, VEL_STEP_LIMIT as int),
        in_box(old(particle)@.acc, ACC_LIMIT as int),
    ensures
        final(particle)@ == integrate_model(old(particle)@, dt as int),
        in_box(final(particle)@.pos, POS_STEP_LIMIT as int),
{
    proof {
        lemma_mul_bound(
            old(particle)@.vel.x,
            dt as int,
            VEL_STEP_LIMIT as int,
            DT_LIMIT as int,
        );
        lemma_mul_bound(
            old(particle)@.vel.y,
            dt as int,
            VEL_STEP_LIMIT as int,
            DT_LIMIT as int,
        );
        lemma_mul_bound(
            old(particle)@.vel.z,
            dt as int,
            VEL_STEP_LIMIT as int,
            DT_LIMIT as int,
        );
        lemma_mul_bound(old(particle)@.acc.x, dt as int, ACC_LIMIT as int, DT_LIMIT as int);
        lemma_mul_bound(old(particle)@.acc.y, dt as int, ACC_LIMIT as int, DT_LIMIT as int);
        lemma_mul_bound(old(particle)@.acc.z, dt as int, ACC_LIMIT as int, DT_LIMIT as int);
        lemma_mul_bound(
            old(particle)@.acc.x * dt,
            dt as int,
            ACC_LIMIT as int * DT_LIMIT as int,
            DT_LIMIT as int,
        );
        lemma_mul_bound(
            old(particle)@.acc.y * dt,
            dt as int,
            ACC_LIMIT as int * DT_LIMIT as int,
            DT_LIMIT as int,
        );
        lemma_mul_bound(
            old(particle)@.acc.z * dt,
            dt as int,
            ACC_LIMIT as int * DT_LIMIT as int,
            DT_LIMIT as int,
        );
    }
    let vdx = particle.velocity.x * dt;
    let vdy = particle.velocity.y * dt;
    let vdz = particle.velocity.z * dt;
    let adx = div_toward_zero(particle.acceleration.x * dt * dt, 2);
    let ady = div_toward_zero(particle.acceleration.y * dt * dt, 2);
    let adz = div_toward_zero(particle.acceleration.z * dt * dt, 2);
    particle.position.x = particle.position.x + vdx + adx;
    particle.position.y = particle.position.y + vdy + ady;
    particle.position.z = particle.position.z + vdz + adz;
    particle.acceleration.x = 0;
    particle.acceleration.y = 0;
    particle.acceleration.z = 0;
}

} // verus!
