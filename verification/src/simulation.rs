//! The orchestrator: owns two atoms, drives the per-step pipeline — force
//! accumulation, velocity update, position integration, time advance,
//! collision check and response — and is specified exactly by `step_model`.

use crate::atom::{Atom, AtomModel};
use crate::forces::{coulomb_den, coulomb_force, coulomb_model, lemma_coulomb_den_pos};
use crate::integrators::{integrate_model, verlet_integrate};
use crate::math::{div_toward_zero, div_trunc, lemma_div_trunc_zero, lemma_mul_bound};
use crate::particle::{Particle, ParticleModel};
use crate::units::{
    BOHR_RADIUS, CHARGE_LIMIT, COLLISION_DISTANCE, COLLISION_KICK, COULOMB_CONSTANT, DT_LIMIT,
    DV_LIMIT,
    ELECTRON_CHARGE, ELECTRON_MASS, FORCE_LIMIT, INITIAL_ELECTRON_SPEED, INITIAL_SEPARATION,
    MASS_LIMIT, POS_LIMIT, PROTON_CHARGE, PROTON_MASS, VEL_LIMIT, VEL_STEP_LIMIT,
};
use crate::vec3::{in_box, v3_zero, V3, Vec3};
use vstd::prelude::*;

verus! {

/// Mathematical model of the whole simulation state.
#[verifier::ext_equal]
pub struct SimulationModel {
    pub atom0: AtomModel,
    pub atom1: AtomModel,
    pub time: int,
}

impl SimulationModel {
    /// All four particles are in bounds, so one step can be taken without
    /// any arithmetic leaving `i128`.
    pub open spec fn wf(self) -> bool {
        &&& self.atom0.proton.wf()
        &&& self.atom0.electron.wf()
        &&& self.atom1.proton.wf()
        &&& self.atom1.electron.wf()
    }

    /// No two particles share a position, so no Coulomb denominator is
    /// zero. This is the documented policy for the force law's singularity:
    /// coincident particles are ruled out up front rather than fed to a
    /// division by zero.
    pub open spec fn distinct_positions(self) -> bool {
        &&& self.atom0.proton.pos != self.atom0.electron.pos
        &&& self.atom0.proton.pos != self.atom1.proton.pos
        &&& self.atom0.proton.pos != self.atom1.electron.pos
        &&& self.atom0.electron.pos != self.atom1.proton.pos
        &&& self.atom0.electron.pos != self.atom1.electron.pos
        &&& self.atom1.proton.pos != self.atom1.electron.pos
    }
}

/// One pair interaction: the force on `pi` due to `pj` is applied to both
/// velocities directly (Newton's third law), each change rounded toward
/// zero after scaling by `dt` and dividing by the particle's own mass.
pub open spec fn apply_pair_model(pi: ParticleModel, pj: ParticleModel, dt: int) -> (
    ParticleModel,
    ParticleModel,
) {
    let f = coulomb_model(pi, pj);
    (
        ParticleModel {
            mass: pi.mass,
            charge: pi.charge,
            pos: pi.pos,
            vel: V3 {
                x: pi.vel.x + div_trunc(f.x * dt, pi.mass),
                y: pi.vel.y + div_trunc(f.y * dt, pi.mass),
                z: pi.vel.z + div_trunc(f.z * dt, pi.mass),
            },
            acc: pi.acc,
        },
        ParticleModel {
            mass: pj.mass,
            charge: pj.charge,
            pos: pj.pos,
            vel: V3 {
                x: pj.vel.x + div_trunc(-f.x * dt, pj.mass),
                y: pj.vel.y + div_trunc(-f.y * dt, pj.mass),
                z: pj.vel.z + div_trunc(-f.z * dt, pj.mass),
            },
            acc: pj.acc,
        },
    )
}

/// Everything one step does before the collision check: the six pair
/// interactions in ascending index order over the particle list
/// (atom 0 proton, atom 0 electron, atom 1 proton, atom 1 electron),
/// then position integration for each particle in that order, then the
/// time advance.
pub open spec fn advance_model(s: SimulationModel, dt: int) -> SimulationModel {
    let k01 = apply_pair_model(s.atom0.proton, s.atom0.electron, dt);
    let k02 = apply_pair_model(k01.0, s.atom1.proton, dt);
    let k03 = apply_pair_model(k02.0, s.atom1.electron, dt);
    let k12 = apply_pair_model(k01.1, k02.1, dt);
    let k13 = apply_pair_model(k12.0, k03.1, dt);
    let k23 = apply_pair_model(k12.1, k13.1, dt);
    SimulationModel {
        atom0: AtomModel {
            proton: integrate_model(k03.0, dt),
            electron: integrate_model(k13.0, dt),
            time: s.atom0.time,
        },
        atom1: AtomModel {
            proton: integrate_model(k23.0, dt),
            electron: integrate_model(k23.1, dt),
            time: s.atom1.time,
        },
        time: s.time + dt,
    }
}

/// The planar (x, y only) distance between the two protons is below the
/// collision threshold.
pub open spec fn protons_planar_close(s: SimulationModel) -> bool {
    let dx = s.atom0.proton.pos.x - s.atom1.proton.pos.x;
    let dy = s.atom0.proton.pos.y - s.atom1.proton.pos.y;
    dx * dx + dy * dy < COLLISION_DISTANCE * COLLISION_DISTANCE
}

/// The collision response: the protons exchange the x-components of their
/// velocities, then atom 0's proton gets `+COLLISION_KICK` and atom 1's
/// proton `-COLLISION_KICK` on the y-component. Nothing else changes.
pub open spec fn collide_model(s: SimulationModel) -> SimulationModel {
    SimulationModel {
        atom0: AtomModel {
            proton: ParticleModel {
                mass: s.atom0.proton.mass,
                charge: s.atom0.proton.charge,
                pos: s.atom0.proton.pos,
                vel: V3 {
                    x: s.atom1.proton.vel.x,
                    y: s.atom0.proton.vel.y + COLLISION_KICK,
                    z: s.atom0.proton.vel.z,
                },
                acc: s.atom0.proton.acc,
            },
            electron: s.atom0.electron,
            time: s.atom0.time,
        },
        atom1: AtomModel {
            proton: ParticleModel {
                mass: s.atom1.proton.mass,
                charge: s.atom1.proton.charge,
                pos: s.atom1.proton.pos,
                vel: V3 {
                    x: s.atom0.proton.vel.x,
                    y: s.atom1.proton.vel.y - COLLISION_KICK,
                    z: s.atom1.proton.vel.z,
                },
                acc: s.atom1.proton.acc,
            },
            electron: s.atom1.electron,
            time: s.atom1.time,
        },
        time: s.time,
    }
}

/// One full step: advance, then fire the collision response whenever the
/// advanced protons are planar-close. The response is level-triggered — it
/// fires again on every step for which the condition still holds.
pub open spec fn step_model(s: SimulationModel, dt: int) -> SimulationModel {
    let adv = advance_model(s, dt);
    if protons_planar_close(adv) {
        collide_model(adv)
    } else {
        adv
    }
}

/// The exact initial state: two atoms a fixed distance left and right of
/// the origin, electrons offset outward by one Bohr radius and launched
/// toward the middle.
pub open spec fn initial_model() -> SimulationModel {
    SimulationModel {
        atom0: AtomModel {
            proton: ParticleModel {
                mass: PROTON_MASS as int,
                charge: PROTON_CHARGE as int,
                pos: V3 { x: -INITIAL_SEPARATION as int, y: 0, z: 0 },
                vel: v3_zero(),
                acc: v3_zero(),
            },
            electron: ParticleModel {
                mass: ELECTRON_MASS as int,
                charge: ELECTRON_CHARGE as int,
                pos: V3 { x: -INITIAL_SEPARATION - BOHR_RADIUS, y: 0, z: 0 },
                vel: V3 { x: INITIAL_ELECTRON_SPEED as int, y: 0, z: 0 },
                acc: v3_zero(),
            },
            time: 0,
        },
        atom1: AtomModel {
            proton: ParticleModel {
                mass: PROTON_MASS as int,
                charge: PROTON_CHARGE as int,
                pos: V3 { x: INITIAL_SEPARATION as int, y: 0, z: 0 },
                vel: v3_zero(),
                acc: v3_zero(),
            },
            electron: ParticleModel {
                mass: ELECTRON_MASS as int,
                charge: ELECTRON_CHARGE as int,
                pos: V3 { x: INITIAL_SEPARATION + BOHR_RADIUS, y: 0, z: 0 },
                vel: V3 { x: -INITIAL_ELECTRON_SPEED as int, y: 0, z: 0 },
                acc: v3_zero(),
            },
            time: 0,
        },
        time: 0,
    }
}

/// If either planar displacement component alone reaches the threshold,
/// the squared planar distance does too.
proof fn lemma_far_in_one_axis(dx: int, dy: int, t: int)
    by (nonlinear_arith)
    requires
        t >= 0,
        dx > t || dx < -t || dy > t || dy < -t,
    ensures
        dx * dx + dy * dy >= t * t,
{
}

/// The simulation: two atoms and the global elapsed time.
#[derive(Clone, Copy, PartialEq, Eq, Structural, Debug)]
pub struct Simulation {
    pub atom0: Atom,
    pub atom1: Atom,
    pub time: i128,
}

impl View for Simulation {
    type V = SimulationModel;

    open spec fn view(&self) -> SimulationModel {
        SimulationModel { atom0: self.atom0@, atom1: self.atom1@, time: self.time as int }
    }
}

/// Apply one pair interaction to two distinct particles in place.
/// `ba` and `bb` bound the incoming velocity components, so the caller can
/// track how far velocities may have drifted during the force phase.
fn kick_pair(a: &mut Particle, b: &mut Particle, dt: i128, Ghost(ba): Ghost<int>, Ghost(bb): Ghost<int>)
    requires
        1 <= old(a).mass <= MASS_LIMIT,
        1 <= old(b).mass <= MASS_LIMIT,
        -CHARGE_LIMIT <= old(a).charge <= CHARGE_LIMIT,
        -CHARGE_LIMIT <= old(b).charge <= CHARGE_LIMIT,
        in_box(old(a)@.pos, POS_LIMIT as int),
        in_box(old(b)@.pos, POS_LIMIT as int),
        old(a)@.pos != old(b)@.pos,
        in_box(old(a)@.vel, ba),
        in_box(old(b)@.vel, bb),
        0 <= ba <= VEL_LIMIT + 2 * DV_LIMIT,
        0 <= bb <= VEL_LIMIT + 2 * DV_LIMIT,
        0 <= dt <= DT_LIMIT,
    ensures
        final(a)@ == apply_pair_model(old(a)@, old(b)@, dt as int).0,
        final(b)@ == apply_pair_model(old(a)@, old(b)@, dt as int).1,
        in_box(final(a)@.vel, ba + DV_LIMIT),
        in_box(final(b)@.vel, bb + DV_LIMIT),
        final(a).mass == old(a).mass,
        final(a).charge == old(a).charge,
        final(a).position == old(a).position,
        final(a).acceleration == old(a).acceleration,
        final(b).mass == old(b).mass,
        final(b).charge == old(b).charge,
        final(b).position == old(b).position,
        final(b).acceleration == old(b).acceleration,
{
    let f = coulomb_force(a, b);
    proof {
        lemma_mul_bound(f@.x, dt as int, FORCE_LIMIT as int, DT_LIMIT as int);
        lemma_mul_bound(f@.y, dt as int, FORCE_LIMIT as int, DT_LIMIT as int);
        lemma_mul_bound(f@.z, dt as int, FORCE_LIMIT as int, DT_LIMIT as int);
        lemma_mul_bound(-f@.x, dt as int, FORCE_LIMIT as int, DT_LIMIT as int);
        lemma_mul_bound(-f@.y, dt as int, FORCE_LIMIT as int, DT_LIMIT as int);
        lemma_mul_bound(-f@.z, dt as int, FORCE_LIMIT as int, DT_LIMIT as int);
    }
    let dax = div_toward_zero(f.x * dt, a.mass);
    let day = div_toward_zero(f.y * dt, a.mass);
    let daz = div_toward_zero(f.z * dt, a.mass);
    a.velocity.x = a.velocity.x + dax;
    a.velocity.y = a.velocity.y + day;
    a.velocity.z = a.velocity.z + daz;
    let dbx = div_toward_zero(-f.x * dt, b.mass);
    let dby = div_toward_zero(-f.y * dt, b.mass);
    let dbz = div_toward_zero(-f.z * dt, b.mass);
    b.velocity.x = b.velocity.x + dbx;
    b.velocity.y = b.velocity.y + dby;
    b.velocity.z = b.velocity.z + dbz;
}

impl Simulation {
    /// The fixed deterministic initial state.
    pub fn new() -> (s: Simulation)
        ensures
            s@ == initial_model(),
            s@.wf(),
            s@.distinct_positions(),
    {
        let mut atom0 = Atom::new();
        let mut atom1 = Atom::new();
        atom0.proton.position = Vec3 { x: -INITIAL_SEPARATION, y: 0, z: 0 };
        atom0.electron.position = Vec3 { x: -INITIAL_SEPARATION - BOHR_RADIUS, y: 0, z: 0 };
        atom0.electron.velocity = Vec3 { x: INITIAL_ELECTRON_SPEED, y: 0, z: 0 };
        atom1.proton.position = Vec3 { x: INITIAL_SEPARATION, y: 0, z: 0 };
        atom1.electron.position = Vec3 { x: INITIAL_SEPARATION + BOHR_RADIUS, y: 0, z: 0 };
        atom1.electron.velocity = Vec3 { x: -INITIAL_ELECTRON_SPEED, y: 0, z: 0 };
        Simulation { atom0, atom1, time: 0 }
    }

    /// The collision response (see `collide_model`).
    fn handle_collision(&mut self)
        requires
            in_box(old(self)@.atom0.proton.vel, VEL_STEP_LIMIT as int),
            in_box(old(self)@.atom1.proton.vel, VEL_STEP_LIMIT as int),
        ensures
            final(self)@ == collide_model(old(self)@),
    {
        let vx0 = self.atom0.proton.velocity.x;
        let vx1 = self.atom1.proton.velocity.x;
        self.atom0.proton.velocity.x = vx1;
        self.atom1.proton.velocity.x = vx0;
        self.atom0.proton.velocity.y = self.atom0.proton.velocity.y + COLLISION_KICK;
        self.atom1.proton.velocity.y = self.atom1.proton.velocity.y - COLLISION_KICK;
    }

    /// Advance the state by exactly one step of size `dt`.
    pub fn update(&mut self, dt: i128)
        requires
            old(self)@.wf(),
            old(self)@.distinct_positions(),
            0 <= dt <= DT_LIMIT,
            old(self).time + dt <= i128::MAX,
        ensures
            final(self)@ == step_model(old(self)@, dt as int),
            final(self).time == old(self).time + dt,
    {
        let ghost s0 = self@;
        let mut p0 = self.atom0.proton;
        let mut p1 = self.atom0.electron;
        let mut p2 = self.atom1.proton;
        let mut p3 = self.atom1.electron;
        kick_pair(&mut p0, &mut p1, dt, Ghost(VEL_LIMIT as int), Ghost(VEL_LIMIT as int));
        kick_pair(
            &mut p0,
            &mut p2,
            dt,
            Ghost(VEL_LIMIT + DV_LIMIT),
            Ghost(VEL_LIMIT as int),
        );
        kick_pair(
            &mut p0,
            &mut p3,
            dt,
            Ghost(VEL_LIMIT + 2 * DV_LIMIT),
            Ghost(VEL_LIMIT as int),
        );
        kick_pair(
            &mut p1,
            &mut p2,
            dt,
            Ghost(VEL_LIMIT + DV_LIMIT),
            Ghost(VEL_LIMIT + DV_LIMIT),
        );
        kick_pair(
            &mut p1,
            &mut p3,
            dt,
            Ghost(VEL_LIMIT + 2 * DV_LIMIT),
            Ghost(VEL_LIMIT + DV_LIMIT),
        );
        kick_pair(
            &mut p2,
            &mut p3,
            dt,
            Ghost(VEL_LIMIT + 2 * DV_LIMIT),
            Ghost(VEL_LIMIT + 2 * DV_LIMIT),
        );
        verlet_integrate(&mut p0, dt);
        verlet_integrate(&mut p1, dt);
        verlet_integrate(&mut p2, dt);
        verlet_integrate(&mut p3, dt);
        self.atom0.proton = p0;
        self.atom0.electron = p1;
        self.atom1.proton = p2;
        self.atom1.electron = p3;
        self.time = self.time + dt;
        proof {
            assert(self@ == advance_model(s0, dt as int));
        }
        let dx = self.atom0.proton.position.x - self.atom1.proton.position.x;
        let dy = self.atom0.proton.position.y - self.atom1.proton.position.y;
        if dx > COLLISION_DISTANCE || dx < -COLLISION_DISTANCE || dy > COLLISION_DISTANCE || dy
            < -COLLISION_DISTANCE {
            proof {
                lemma_far_in_one_axis(dx as int, dy as int, COLLISION_DISTANCE as int);
            }
        } else {
            proof {
                lemma_mul_bound(dx as int, dx as int, COLLISION_DISTANCE as int, COLLISION_DISTANCE as int);
                lemma_mul_bound(dy as int, dy as int, COLLISION_DISTANCE as int, COLLISION_DISTANCE as int);
            }
            if dx * dx + dy * dy < COLLISION_DISTANCE * COLLISION_DISTANCE {
                self.handle_collision();
            }
        }
    }
}

/// The state after `n` steps of size `dt`.
pub open spec fn run_model(s: SimulationModel, dt: int, n: nat) -> SimulationModel
    decreases n,
{
    if n == 0 {
        s
    } else {
        step_model(run_model(s, dt, (n - 1) as nat), dt)
    }
}

/// The state after one step for each entry of `dts`, in order.
pub open spec fn run_seq_model(s: SimulationModel, dts: Seq<int>) -> SimulationModel
    decreases dts.len(),
{
    if dts.len() == 0 {
        s
    } else {
        run_seq_model(step_model(s, dts.first()), dts.drop_first())
    }
}

/// Monotonic time: one step advances the clock by exactly `dt`, so with a
/// nonnegative `dt` elapsed time never decreases.
pub proof fn lemma_step_time(s: SimulationModel, dt: int)
    ensures
        step_model(s, dt).time == s.time + dt,
        dt >= 0 ==> step_model(s, dt).time >= s.time,
{
}

/// Monotonic time over a whole run: after `n` steps of size `dt` the clock
/// reads exactly `n * dt` past its start.
pub proof fn lemma_run_time(s: SimulationModel, dt: int, n: nat)
    ensures
        run_model(s, dt, n).time == s.time + n * dt,
    decreases n,
{
    if n == 0 {
        assert(n * dt == 0) by (nonlinear_arith)
            requires
                n == 0,
        ;
    } else {
        let m = (n - 1) as nat;
        lemma_run_time(s, dt, m);
        lemma_step_time(run_model(s, dt, m), dt);
        assert(m * dt + dt == n * dt) by (nonlinear_arith)
            requires
                m == n - 1,
        ;
    }
}

/// Determinism: the trajectory is a pure function of the initial state and
/// the sequence of step sizes — two runs from equal states under equal
/// step sizes coincide exactly.
pub proof fn lemma_deterministic(s1: SimulationModel, s2: SimulationModel, dts: Seq<int>)
    requires
        s1 == s2,
    ensures
        run_seq_model(s1, dts) == run_seq_model(s2, dts),
{
}

/// A pair interaction with an uncharged participant moves neither
/// velocity: the zero charge kills the force on both sides.
proof fn lemma_neutral_pair(pi: ParticleModel, pj: ParticleModel, dt: int)
    requires
        pi.pos != pj.pos,
        1 <= pi.mass,
        1 <= pj.mass,
        pi.charge == 0 || pj.charge == 0,
    ensures
        apply_pair_model(pi, pj, dt).0.vel == pi.vel,
        apply_pair_model(pi, pj, dt).1.vel == pj.vel,
{
    lemma_coulomb_den_pos(pi, pj);
    lemma_div_trunc_zero(coulomb_den(pi, pj));
    lemma_div_trunc_zero(pi.mass);
    lemma_div_trunc_zero(pj.mass);
    assert(COULOMB_CONSTANT * pi.charge * pj.charge == 0) by (nonlinear_arith)
        requires
            pi.charge == 0 || pj.charge == 0,
    ;
    assert(coulomb_model(pi, pj).x == 0);
    assert(coulomb_model(pi, pj).y == 0);
    assert(coulomb_model(pi, pj).z == 0);
}

/// Zero-force straight-line motion: an uncharged, unaccelerated electron
/// in atom 0 keeps its velocity through a step and moves by exactly
/// `velocity * dt`. (Stated for an electron: the collision response acts
/// on the protons whatever their charges, so a neutral proton can still
/// have its velocity changed by it.)
pub proof fn lemma_neutral_electron_moves_linearly(s: SimulationModel, dt: int)
    requires
        s.wf(),
        s.distinct_positions(),
        s.atom0.electron.charge == 0,
        s.atom0.electron.acc == v3_zero(),
    ensures
        step_model(s, dt).atom0.electron.vel == s.atom0.electron.vel,
        step_model(s, dt).atom0.electron.pos.x == s.atom0.electron.pos.x + s.atom0.electron.vel.x
            * dt,
        step_model(s, dt).atom0.electron.pos.y == s.atom0.electron.pos.y + s.atom0.electron.vel.y
            * dt,
        step_model(s, dt).atom0.electron.pos.z == s.atom0.electron.pos.z + s.atom0.electron.vel.z
            * dt,
{
    let k01 = apply_pair_model(s.atom0.proton, s.atom0.electron, dt);
    let k02 = apply_pair_model(k01.0, s.atom1.proton, dt);
    let k03 = apply_pair_model(k02.0, s.atom1.electron, dt);
    let k12 = apply_pair_model(k01.1, k02.1, dt);
    let k13 = apply_pair_model(k12.0, k03.1, dt);
    lemma_neutral_pair(s.atom0.proton, s.atom0.electron, dt);
    lemma_neutral_pair(k01.1, k02.1, dt);
    lemma_neutral_pair(k12.0, k03.1, dt);
    lemma_div_trunc_zero(2);
}

/// Zero-force straight-line motion for a proton: the same law holds for an
/// uncharged, unaccelerated proton on the steps where the collision
/// response does not fire. The response swaps proton velocities whatever
/// their charges, so steps on which it fires are excluded.
pub proof fn lemma_neutral_proton_moves_linearly(s: SimulationModel, dt: int)
    requires
        s.wf(),
        s.distinct_positions(),
        s.atom0.proton.charge == 0,
        s.atom0.proton.acc == v3_zero(),
        !protons_planar_close(advance_model(s, dt)),
    ensures
        step_model(s, dt).atom0.proton.vel == s.atom0.proton.vel,
        step_model(s, dt).atom0.proton.pos.x == s.atom0.proton.pos.x + s.atom0.proton.vel.x * dt,
        step_model(s, dt).atom0.proton.pos.y == s.atom0.proton.pos.y + s.atom0.proton.vel.y * dt,
        step_model(s, dt).atom0.proton.pos.z == s.atom0.proton.pos.z + s.atom0.proton.vel.z * dt,
{
    let k01 = apply_pair_model(s.atom0.proton, s.atom0.electron, dt);
    let k02 = apply_pair_model(k01.0, s.atom1.proton, dt);
    let k03 = apply_pair_model(k02.0, s.atom1.electron, dt);
    lemma_neutral_pair(s.atom0.proton, s.atom0.electron, dt);
    lemma_neutral_pair(k01.0, s.atom1.proton, dt);
    lemma_neutral_pair(k02.0, s.atom1.electron, dt);
    lemma_div_trunc_zero(2);
}

/// Collision swap law: whenever the advanced protons are planar-close, the
/// step ends by exchanging the protons' x-velocities and perturbing their
/// y-velocities by the fixed kick, leaving everything else as the advance
/// produced it.
pub proof fn lemma_collision_swaps_protons(s: SimulationModel, dt: int)
    requires
        protons_planar_close(advance_model(s, dt)),
    ensures
        step_model(s, dt).atom0.proton.vel.x == advance_model(s, dt).atom1.proton.vel.x,
        step_model(s, dt).atom1.proton.vel.x == advance_model(s, dt).atom0.proton.vel.x,
        step_model(s, dt).atom0.proton.vel.y == advance_model(s, dt).atom0.proton.vel.y
            + COLLISION_KICK,
        step_model(s, dt).atom1.proton.vel.y == advance_model(s, dt).atom1.proton.vel.y
            - COLLISION_KICK,
        step_model(s, dt).atom0.proton.vel.z == advance_model(s, dt).atom0.proton.vel.z,
        step_model(s, dt).atom1.proton.vel.z == advance_model(s, dt).atom1.proton.vel.z,
        step_model(s, dt).atom0.proton.pos == advance_model(s, dt).atom0.proton.pos,
        step_model(s, dt).atom1.proton.pos == advance_model(s, dt).atom1.proton.pos,
        step_model(s, dt).atom0.electron == advance_model(s, dt).atom0.electron,
        step_model(s, dt).atom1.electron == advance_model(s, dt).atom1.electron,
        step_model(s, dt).time == advance_model(s, dt).time,
{
}

/// Without a collision the step is exactly the advance.
pub proof fn lemma_no_collision_is_advance(s: SimulationModel, dt: int)
    requires
        !protons_planar_close(advance_model(s, dt)),
    ensures
        step_model(s, dt) == advance_model(s, dt),
{
}

} // verus!
