//! Pairwise electrostatic force evaluation: Coulomb's law in fixed-point
//! integer arithmetic, with its antisymmetry and sign laws.

use crate::math::{
    div_toward_zero, div_trunc, isqrt, lemma_div_trunc_bounds, lemma_div_trunc_neg,
    lemma_div_trunc_zero_iff, lemma_mul_bound, lemma_sqrt_floor_correct, lemma_square_nonneg,
    lemma_square_pos, sqrt_floor,
};
use crate::particle::{Particle, ParticleModel};
use crate::units::{CHARGE_LIMIT, COULOMB_CONSTANT, FORCE_LIMIT, POS_LIMIT};
use crate::vec3::{in_box, V3, Vec3};
use vstd::prelude::*;

verus! {

/// Squared distance between the two particles' positions.
pub open spec fn dist_sq(a: ParticleModel, b: ParticleModel) -> int {
    let rx = a.pos.x - b.pos.x;
    let ry = a.pos.y - b.pos.y;
    let rz = a.pos.z - b.pos.z;
    rx * rx + ry * ry + rz * rz
}

/// Denominator of every force component: squared distance times the floor
/// of the distance itself.
pub open spec fn coulomb_den(a: ParticleModel, b: ParticleModel) -> int {
    dist_sq(a, b) * (sqrt_floor(dist_sq(a, b) as nat) as int)
}

/// The electrostatic force on `a` due to `b`: each component is
/// `k * q_a * q_b * (a - b)_i / (d^2 * d)`, rounded toward zero, so that a
/// positive charge product pushes `a` away from `b` and a negative one
/// pulls it toward `b`.
pub open spec fn coulomb_model(a: ParticleModel, b: ParticleModel) -> V3 {
    let den = coulomb_den(a, b);
    let kqq = COULOMB_CONSTANT * a.charge * b.charge;
    V3 {
        x: div_trunc(kqq * (a.pos.x - b.pos.x), den),
        y: div_trunc(kqq * (a.pos.y - b.pos.y), den),
        z: div_trunc(kqq * (a.pos.z - b.pos.z), den),
    }
}

/// Particles at distinct positions have a positive force denominator.
pub proof fn lemma_coulomb_den_pos(a: ParticleModel, b: ParticleModel)
    requires
        a.pos != b.pos,
    ensures
        dist_sq(a, b) >= 1,
        sqrt_floor(dist_sq(a, b) as nat) >= 1,
        coulomb_den(a, b) >= 1,
{
    let rx = a.pos.x - b.pos.x;
    let ry = a.pos.y - b.pos.y;
    let rz = a.pos.z - b.pos.z;
    lemma_square_nonneg(rx);
    lemma_square_nonneg(ry);
    lemma_square_nonneg(rz);
    if rx != 0 {
        lemma_square_pos(rx);
    } else if ry != 0 {
        lemma_square_pos(ry);
    } else {
        lemma_square_pos(rz);
    }
    let d2 = dist_sq(a, b);
    let d = sqrt_floor(d2 as nat) as int;
    lemma_sqrt_floor_correct(d2 as nat);
    assert(d >= 1) by (nonlinear_arith)
        requires
            d2 >= 1,
            0 <= d,
            d2 < (d + 1) * (d + 1),
    ;
    assert(d2 * d >= 1) by (nonlinear_arith)
        requires
            d2 >= 1,
            d >= 1,
    ;
}

/// The electrostatic force Coulomb's law exerts on `a` due to `b`.
pub fn coulomb_force(a: &Particle, b: &Particle) -> (f: Vec3)
    requires
        -CHARGE_LIMIT <= a.charge <= CHARGE_LIMIT,
        -CHARGE_LIMIT <= b.charge <= CHARGE_LIMIT,
        in_box(a@.pos, POS_LIMIT as int),
        in_box(b@.pos, POS_LIMIT as int),
        a@.pos != b@.pos,
    ensures
        f@ == coulomb_model(a@, b@),
        in_box(f@, FORCE_LIMIT as int),
{
    let rx = a.position.x - b.position.x;
    let ry = a.position.y - b.position.y;
    let rz = a.position.z - b.position.z;
    proof {
        lemma_mul_bound(rx as int, rx as int, 2 * POS_LIMIT, 2 * POS_LIMIT);
        lemma_mul_bound(ry as int, ry as int, 2 * POS_LIMIT, 2 * POS_LIMIT);
        lemma_mul_bound(rz as int, rz as int, 2 * POS_LIMIT, 2 * POS_LIMIT);
        lemma_coulomb_den_pos(a@, b@);
    }
    let d2 = rx * rx + ry * ry + rz * rz;
    proof {
        assert(d2 as int == dist_sq(a@, b@));
        assert(0 <= d2 < 0x1000_0000_0000_0000);
    }
    let d = isqrt(d2 as u64) as i128;
    proof {
        lemma_mul_bound(d2 as int, d as int, 3 * 4 * POS_LIMIT * POS_LIMIT, 0x4000_0000);
        assert(d2 * d >= 1) by (nonlinear_arith)
            requires
                d2 >= 1,
                d >= 1,
        ;
    }
    let den = d2 * d;
    proof {
        lemma_mul_bound(a.charge as int, b.charge as int, CHARGE_LIMIT as int, CHARGE_LIMIT as int);
    }
    let qq = a.charge * b.charge;
    proof {
        lemma_mul_bound(
            COULOMB_CONSTANT as int,
            qq as int,
            COULOMB_CONSTANT as int,
            CHARGE_LIMIT as int * CHARGE_LIMIT as int,
        );
    }
    let kqq = COULOMB_CONSTANT * qq;
    proof {
        let nb = COULOMB_CONSTANT as int * CHARGE_LIMIT as int * CHARGE_LIMIT as int;
        lemma_mul_bound(kqq as int, rx as int, nb, 2 * POS_LIMIT);
        lemma_mul_bound(kqq as int, ry as int, nb, 2 * POS_LIMIT);
        lemma_mul_bound(kqq as int, rz as int, nb, 2 * POS_LIMIT);
    }
    proof {
        assert(d as int == sqrt_floor(dist_sq(a@, b@) as nat) as int);
        assert(den as int == coulomb_den(a@, b@));
        assert(kqq as int == COULOMB_CONSTANT * a@.charge * b@.charge) by (nonlinear_arith)
            requires
                kqq as int == COULOMB_CONSTANT * (a@.charge * b@.charge),
        ;
    }
    let fx = div_toward_zero(kqq * rx, den);
    let fy = div_toward_zero(kqq * ry, den);
    let fz = div_toward_zero(kqq * rz, den);
    Vec3 { x: fx, y: fy, z: fz }
}

/// Antisymmetry: the force on `a` due to `b` is the exact negation of the
/// force on `b` due to `a`, component by component.
pub proof fn lemma_coulomb_antisymmetric(a: ParticleModel, b: ParticleModel)
    requires
        a.pos != b.pos,
    ensures
        coulomb_model(a, b).x == -coulomb_model(b, a).x,
        coulomb_model(a, b).y == -coulomb_model(b, a).y,
        coulomb_model(a, b).z == -coulomb_model(b, a).z,
{
    lemma_coulomb_den_pos(a, b);
    let rx = a.pos.x - b.pos.x;
    let ry = a.pos.y - b.pos.y;
    let rz = a.pos.z - b.pos.z;
    assert(dist_sq(b, a) == dist_sq(a, b)) by (nonlinear_arith)
        requires
            dist_sq(a, b) == (a.pos.x - b.pos.x) * (a.pos.x - b.pos.x) + (a.pos.y - b.pos.y) * (
            a.pos.y - b.pos.y) + (a.pos.z - b.pos.z) * (a.pos.z - b.pos.z),
            dist_sq(b, a) == (b.pos.x - a.pos.x) * (b.pos.x - a.pos.x) + (b.pos.y - a.pos.y) * (
            b.pos.y - a.pos.y) + (b.pos.z - a.pos.z) * (b.pos.z - a.pos.z),
    ;
    let den = coulomb_den(a, b);
    let kqq = COULOMB_CONSTANT * a.charge * b.charge;
    assert(COULOMB_CONSTANT * b.charge * a.charge * (b.pos.x - a.pos.x) == -(kqq * rx))
        by (nonlinear_arith)
        requires
            kqq == COULOMB_CONSTANT * a.charge * b.charge,
            rx == a.pos.x - b.pos.x,
    ;
    assert(COULOMB_CONSTANT * b.charge * a.charge * (b.pos.y - a.pos.y) == -(kqq * ry))
        by (nonlinear_arith)
        requires
            kqq == COULOMB_CONSTANT * a.charge * b.charge,
            ry == a.pos.y - b.pos.y,
    ;
    assert(COULOMB_CONSTANT * b.charge * a.charge * (b.pos.z - a.pos.z) == -(kqq * rz))
        by (nonlinear_arith)
        requires
            kqq == COULOMB_CONSTANT * a.charge * b.charge,
            rz == a.pos.z - b.pos.z,
    ;
    lemma_div_trunc_neg(kqq * rx, den);
    lemma_div_trunc_neg(kqq * ry, den);
    lemma_div_trunc_neg(kqq * rz, den);
}

/// One component of the sign law: with a positive charge product the force
/// component never points toward the other particle, with a negative one it
/// never points away.
proof fn lemma_component_sign(qq: int, r: int, den: int)
    requires
        den >= 1,
    ensures
        qq > 0 ==> div_trunc(COULOMB_CONSTANT * qq * r, den) * r >= 0,
        qq < 0 ==> div_trunc(COULOMB_CONSTANT * qq * r, den) * r <= 0,
{
    let num = COULOMB_CONSTANT * qq * r;
    lemma_div_trunc_bounds(num, den);
    let q = div_trunc(num, den);
    if qq > 0 {
        if r >= 0 {
            assert(num >= 0) by (nonlinear_arith)
                requires
                    num == COULOMB_CONSTANT * qq * r,
                    qq > 0,
                    r >= 0,
            ;
            assert(q * r >= 0) by (nonlinear_arith)
                requires
                    q >= 0,
                    r >= 0,
            ;
        } else {
            assert(num <= 0) by (nonlinear_arith)
                requires
                    num == COULOMB_CONSTANT * qq * r,
                    qq > 0,
                    r < 0,
            ;
            assert(q * r >= 0) by (nonlinear_arith)
                requires
                    q <= 0,
                    r < 0,
            ;
        }
    }
    if qq < 0 {
        if r >= 0 {
            assert(num <= 0) by (nonlinear_arith)
                requires
                    num == COULOMB_CONSTANT * qq * r,
                    qq < 0,
                    r >= 0,
            ;
            assert(q * r <= 0) by (nonlinear_arith)
                requires
                    q <= 0,
                    r >= 0,
            ;
        } else {
            assert(num >= 0) by (nonlinear_arith)
                requires
                    num == COULOMB_CONSTANT * qq * r,
                    qq < 0,
                    r < 0,
            ;
            assert(q * r <= 0) by (nonlinear_arith)
                requires
                    q >= 0,
                    r < 0,
            ;
        }
    }
}

/// A force component vanishes exactly when its unrounded numerator is
/// smaller in magnitude than the denominator: rounding toward zero is the
/// only way the sign law's inequalities can degenerate to zero.
pub proof fn lemma_coulomb_component_zero_iff(a: ParticleModel, b: ParticleModel)
    requires
        a.pos != b.pos,
    ensures
        coulomb_model(a, b).x == 0 <==> -coulomb_den(a, b) < COULOMB_CONSTANT * a.charge * b.charge
            * (a.pos.x - b.pos.x) < coulomb_den(a, b),
        coulomb_model(a, b).y == 0 <==> -coulomb_den(a, b) < COULOMB_CONSTANT * a.charge * b.charge
            * (a.pos.y - b.pos.y) < coulomb_den(a, b),
        coulomb_model(a, b).z == 0 <==> -coulomb_den(a, b) < COULOMB_CONSTANT * a.charge * b.charge
            * (a.pos.z - b.pos.z) < coulomb_den(a, b),
{
    lemma_coulomb_den_pos(a, b);
    let den = coulomb_den(a, b);
    let kqq = COULOMB_CONSTANT * a.charge * b.charge;
    lemma_div_trunc_zero_iff(kqq * (a.pos.x - b.pos.x), den);
    lemma_div_trunc_zero_iff(kqq * (a.pos.y - b.pos.y), den);
    lemma_div_trunc_zero_iff(kqq * (a.pos.z - b.pos.z), den);
}

/// Sign correctness: like charges give a repulsive force (each component
/// has the sign of the displacement from `b` to `a`, or vanishes by
/// rounding), unlike charges give an attractive one.
pub proof fn lemma_coulomb_sign(a: ParticleModel, b: ParticleModel)
    requires
        a.pos != b.pos,
    ensures
        a.charge * b.charge > 0 ==> {
            &&& coulomb_model(a, b).x * (a.pos.x - b.pos.x) >= 0
            &&& coulomb_model(a, b).y * (a.pos.y - b.pos.y) >= 0
            &&& coulomb_model(a, b).z * (a.pos.z - b.pos.z) >= 0
        },
        a.charge * b.charge < 0 ==> {
            &&& coulomb_model(a, b).x * (a.pos.x - b.pos.x) <= 0
            &&& coulomb_model(a, b).y * (a.pos.y - b.pos.y) <= 0
            &&& coulomb_model(a, b).z * (a.pos.z - b.pos.z) <= 0
        },
{
    lemma_coulomb_den_pos(a, b);
    let den = coulomb_den(a, b);
    let qq = a.charge * b.charge;
    assert(COULOMB_CONSTANT * a.charge * b.charge == COULOMB_CONSTANT * qq) by (nonlinear_arith)
        requires
            qq == a.charge * b.charge,
    ;
    lemma_component_sign(qq, a.pos.x - b.pos.x, den);
    lemma_component_sign(qq, a.pos.y - b.pos.y, den);
    lemma_component_sign(qq, a.pos.z - b.pos.z, den);
}

} // verus!
