use atomsim::atom::Atom;
use atomsim::forces::coulomb_force;
use atomsim::integrators::verlet_integrate;
use atomsim::math::{div_toward_zero, isqrt};
use atomsim::particle::Particle;
use atomsim::simulation::Simulation;
use atomsim::vec3::Vec3;

fn particle_at(mass: i128, charge: i128, pos: Vec3, vel: Vec3) -> Particle {
    let mut p = Particle::new(mass, charge);
    p.position = pos;
    p.velocity = vel;
    p
}

#[test]
fn div_toward_zero_truncates() {
    assert_eq!(div_toward_zero(7, 2), 3);
    assert_eq!(div_toward_zero(-7, 2), -3);
    assert_eq!(div_toward_zero(0, 5), 0);
    assert_eq!(div_toward_zero(-1, 5), 0);
}

#[test]
fn isqrt_exact_values() {
    assert_eq!(isqrt(0), 0);
    assert_eq!(isqrt(1), 1);
    assert_eq!(isqrt(24), 4);
    assert_eq!(isqrt(25), 5);
    assert_eq!(isqrt(999_999_999_999), 999_999);
}

#[test]
fn particle_new_is_at_rest_at_origin() {
    let p = Particle::new(1000, -42);
    assert_eq!(p.mass, 1000);
    assert_eq!(p.charge, -42);
    assert_eq!(p.position, Vec3 { x: 0, y: 0, z: 0 });
    assert_eq!(p.velocity, Vec3 { x: 0, y: 0, z: 0 });
    assert_eq!(p.acceleration, Vec3 { x: 0, y: 0, z: 0 });
}

#[test]
fn atom_new_default_configuration() {
    let a = Atom::new();
    assert_eq!(a.proton.mass, 16_726_000);
    assert_eq!(a.proton.charge, 1_602);
    assert_eq!(a.electron.mass, 9_109);
    assert_eq!(a.electron.charge, -1_602);
    assert_eq!(a.electron.position, Vec3 { x: 5_291_770, y: 0, z: 0 });
    assert_eq!(a.electron.velocity, Vec3 { x: 0, y: 2_200_000, z: 0 });
    assert_eq!(a.time, 0);
}

#[test]
fn simulation_new_initial_state() {
    let s = Simulation::new();
    assert_eq!(s.time, 0);
    assert_eq!(s.atom0.proton.position, Vec3 { x: -10_000_000, y: 0, z: 0 });
    assert_eq!(s.atom0.proton.velocity, Vec3 { x: 0, y: 0, z: 0 });
    assert_eq!(s.atom0.electron.position, Vec3 { x: -15_291_770, y: 0, z: 0 });
    assert_eq!(s.atom0.electron.velocity, Vec3 { x: 1_000_000, y: 0, z: 0 });
    assert_eq!(s.atom1.proton.position, Vec3 { x: 10_000_000, y: 0, z: 0 });
    assert_eq!(s.atom1.proton.velocity, Vec3 { x: 0, y: 0, z: 0 });
    assert_eq!(s.atom1.electron.position, Vec3 { x: 15_291_770, y: 0, z: 0 });
    assert_eq!(s.atom1.electron.velocity, Vec3 { x: -1_000_000, y: 0, z: 0 });
}

#[test]
fn coulomb_force_exact_components() {
    // Proton of atom 0 and its electron, at the initial separation.
    let p = particle_at(
        16_726_000,
        1_602,
        Vec3 { x: -10_000_000, y: 0, z: 0 },
        Vec3 { x: 0, y: 0, z: 0 },
    );
    let e = particle_at(
        9_109,
        -1_602,
        Vec3 { x: -15_291_770, y: 0, z: 0 },
        Vec3 { x: 1_000_000, y: 0, z: 0 },
    );
    let f = coulomb_force(&p, &e);
    // Unlike charges attract: the force on the proton points toward the
    // electron, which lies in the -x direction.
    assert_eq!(f, Vec3 { x: -8_236_866_120, y: 0, z: 0 });

    // The two protons at the initial separation.
    let q = particle_at(
        16_726_000,
        1_602,
        Vec3 { x: 10_000_000, y: 0, z: 0 },
        Vec3 { x: 0, y: 0, z: 0 },
    );
    let g = coulomb_force(&p, &q);
    // Like charges repel: the force on the left proton points further left.
    assert_eq!(g, Vec3 { x: -576_638_898, y: 0, z: 0 });
}

#[test]
fn coulomb_force_antisymmetric() {
    let a = particle_at(
        1_000,
        1_602,
        Vec3 { x: 100, y: -230, z: 70 },
        Vec3 { x: 0, y: 0, z: 0 },
    );
    let b = particle_at(
        2_000,
        -890,
        Vec3 { x: -40, y: 55, z: -12 },
        Vec3 { x: 0, y: 0, z: 0 },
    );
    let fab = coulomb_force(&a, &b);
    let fba = coulomb_force(&b, &a);
    assert_eq!(fab.x, -fba.x);
    assert_eq!(fab.y, -fba.y);
    assert_eq!(fab.z, -fba.z);
}

#[test]
fn coulomb_force_sign_matches_charges() {
    let origin = Vec3 { x: 0, y: 0, z: 0 };
    let rest = Vec3 { x: 0, y: 0, z: 0 };
    let there = Vec3 { x: 3_000, y: -4_000, z: 12_000 };
    let like_a = particle_at(1_000, 500, there, rest);
    let like_b = particle_at(1_000, 700, origin, rest);
    let f = coulomb_force(&like_a, &like_b);
    // Repulsive: each component points along the displacement from b to a.
    assert!(f.x * (there.x) >= 0 && f.x != 0);
    assert!(f.y * (there.y) >= 0 && f.y != 0);
    assert!(f.z * (there.z) >= 0 && f.z != 0);
    let unlike_b = particle_at(1_000, -700, origin, rest);
    let g = coulomb_force(&like_a, &unlike_b);
    // Attractive: each component points back toward b.
    assert!(g.x * (there.x) <= 0 && g.x != 0);
    assert!(g.y * (there.y) <= 0 && g.y != 0);
    assert!(g.z * (there.z) <= 0 && g.z != 0);
}

#[test]
fn verlet_integrate_moves_and_clears_acceleration() {
    let mut p = particle_at(
        1_000,
        0,
        Vec3 { x: 5, y: 6, z: 7 },
        Vec3 { x: 10, y: -3, z: 0 },
    );
    p.acceleration = Vec3 { x: 7, y: 0, z: -2 };
    verlet_integrate(&mut p, 3);
    // x: 5 + 10*3 + (7*9)/2 = 5 + 30 + 31; y: 6 - 9; z: 7 + (-18)/2.
    assert_eq!(p.position, Vec3 { x: 66, y: -3, z: -2 });
    assert_eq!(p.velocity, Vec3 { x: 10, y: -3, z: 0 });
    assert_eq!(p.acceleration, Vec3 { x: 0, y: 0, z: 0 });
}

#[test]
fn first_step_from_initial_state() {
    let mut s = Simulation::new();
    s.update(2);
    assert_eq!(s.time, 2);
    // The protons start at rest, so their first-step motion comes entirely
    // from the Coulomb forces at the initial positions: net repulsion plus
    // the pull of their own electrons drives them apart symmetrically.
    assert_eq!(s.atom0.proton.velocity.x, -1_009);
    assert_eq!(s.atom0.proton.position.x, -10_002_018);
    assert_eq!(s.atom1.proton.velocity.x, 1_009);
    assert_eq!(s.atom1.proton.position.x, 10_002_018);
    assert_eq!(s.atom0.electron.velocity.x, 2_833_538);
    assert_eq!(s.atom0.electron.position.x, -9_624_694);
    assert_eq!(s.atom1.electron.velocity.x, -2_833_538);
    assert_eq!(s.atom1.electron.position.x, 9_624_694);
    // Everything stays on the x-axis.
    assert_eq!(s.atom0.proton.position.y, 0);
    assert_eq!(s.atom0.proton.position.z, 0);
    assert_eq!(s.atom0.proton.velocity.y, 0);
}

#[test]
fn two_runs_are_bit_identical() {
    let mut a = Simulation::new();
    let mut b = Simulation::new();
    for _ in 0..50 {
        a.update(2);
        b.update(2);
    }
    assert_eq!(a, b);
    assert_eq!(a.time, 100);
}

#[test]
fn time_is_linear_in_steps() {
    let mut s = Simulation::new();
    let mut last: i128 = 0;
    for n in 1..=100i128 {
        s.update(2);
        assert!(s.time >= last);
        last = s.time;
        assert_eq!(s.time, n * 2);
    }
}

#[test]
fn neutral_electron_moves_in_a_straight_line() {
    let mut s = Simulation::new();
    s.atom0.electron.charge = 0;
    s.update(2);
    assert_eq!(s.atom0.electron.velocity, Vec3 { x: 1_000_000, y: 0, z: 0 });
    assert_eq!(
        s.atom0.electron.position,
        Vec3 { x: -15_291_770 + 2_000_000, y: 0, z: 0 }
    );
}

#[test]
fn neutral_proton_moves_in_a_straight_line() {
    let mut s = Simulation::new();
    s.atom0.proton.charge = 0;
    s.atom0.proton.velocity = Vec3 { x: 50, y: -20, z: 10 };
    s.update(2);
    assert_eq!(s.atom0.proton.velocity, Vec3 { x: 50, y: -20, z: 10 });
    assert_eq!(
        s.atom0.proton.position,
        Vec3 { x: -10_000_000 + 100, y: -40, z: 20 }
    );
}

fn close_protons_setup() -> Simulation {
    // All charges zero, so the force phase moves nothing and the collision
    // response can be observed in isolation.
    let mut s = Simulation::new();
    s.atom0.proton = particle_at(
        1_000,
        0,
        Vec3 { x: 0, y: 0, z: 0 },
        Vec3 { x: 123, y: 5, z: 7 },
    );
    s.atom0.electron = particle_at(
        1_000,
        0,
        Vec3 { x: 0, y: 10_000_000, z: 0 },
        Vec3 { x: 0, y: 0, z: 0 },
    );
    s.atom1.proton = particle_at(
        1_000,
        0,
        Vec3 { x: 3_000_000, y: 0, z: 0 },
        Vec3 { x: -456, y: -9, z: 11 },
    );
    s.atom1.electron = particle_at(
        1_000,
        0,
        Vec3 { x: 3_000_000, y: 10_000_000, z: 0 },
        Vec3 { x: 0, y: 0, z: 0 },
    );
    s
}

#[test]
fn collision_swaps_proton_x_velocities_and_kicks_y() {
    let mut s = close_protons_setup();
    s.update(3);
    // x-velocities swapped relative to the pre-call values, y-velocities
    // perturbed by exactly +1e5 and -1e5, z untouched.
    assert_eq!(s.atom0.proton.velocity, Vec3 { x: -456, y: 100_005, z: 7 });
    assert_eq!(s.atom1.proton.velocity, Vec3 { x: 123, y: -100_009, z: 11 });
    // Positions were integrated from the unchanged velocities first.
    assert_eq!(s.atom0.proton.position, Vec3 { x: 369, y: 15, z: 21 });
    assert_eq!(
        s.atom1.proton.position,
        Vec3 { x: 3_000_000 - 1_368, y: -27, z: 33 }
    );
    // Electrons are untouched by the collision response.
    assert_eq!(s.atom0.electron.velocity, Vec3 { x: 0, y: 0, z: 0 });
}

#[test]
fn no_collision_exactly_at_threshold() {
    // The trigger is a strict inequality: a planar distance of exactly
    // 5e-11 m does not fire the response.
    let mut s = close_protons_setup();
    s.atom0.proton.velocity = Vec3 { x: 0, y: 0, z: 0 };
    s.atom1.proton.position = Vec3 { x: 5_000_000, y: 0, z: 0 };
    s.atom1.proton.velocity = Vec3 { x: 0, y: 0, z: 0 };
    s.update(3);
    assert_eq!(s.atom0.proton.velocity, Vec3 { x: 0, y: 0, z: 0 });
    assert_eq!(s.atom1.proton.velocity, Vec3 { x: 0, y: 0, z: 0 });
    // One unit closer and it fires.
    s.atom1.proton.position = Vec3 { x: 4_999_999, y: 0, z: 0 };
    s.update(3);
    assert_eq!(s.atom0.proton.velocity.y, 100_000);
    assert_eq!(s.atom1.proton.velocity.y, -100_000);
}

#[test]
fn collision_refires_while_protons_stay_close() {
    let mut s = close_protons_setup();
    s.update(3);
    s.update(3);
    // The response is level-triggered: it fired on both steps, so the
    // x-velocities swapped twice (back to the originals) and the y-kick
    // accumulated.
    assert_eq!(s.atom0.proton.velocity.x, 123);
    assert_eq!(s.atom1.proton.velocity.x, -456);
    assert_eq!(s.atom0.proton.velocity.y, 200_005);
    assert_eq!(s.atom1.proton.velocity.y, -200_009);
}
