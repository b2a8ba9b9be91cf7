//! A fixed pairing of one proton-like and one electron-like particle.

use crate::particle::{Particle, ParticleModel};
use crate::units::{
    BOHR_RADIUS, ELECTRON_CHARGE, ELECTRON_MASS, ORBIT_SPEED, PROTON_CHARGE, PROTON_MASS,
};
use crate::vec3::{v3_zero, V3, Vec3};
use vstd::prelude::*;

verus! {

/// Mathematical model of an atom: a proton, an electron, and a vestigial
/// local clock that the orchestrator never advances.
#[verifier::ext_equal]
pub struct AtomModel {
    pub proton: ParticleModel,
    pub electron: ParticleModel,
    pub time: int,
}

/// The state `Atom::new` produces: the proton at rest at the origin, the
/// electron one Bohr radius along x, moving along y at the orbital speed.
pub open spec fn atom_initial_model() -> AtomModel {
    AtomModel {
        proton: ParticleModel {
            mass: PROTON_MASS as int,
            charge: PROTON_CHARGE as int,
            pos: v3_zero(),
            vel: v3_zero(),
            acc: v3_zero(),
        },
        electron: ParticleModel {
            mass: ELECTRON_MASS as int,
            charge: ELECTRON_CHARGE as int,
            pos: V3 { x: BOHR_RADIUS as int, y: 0, z: 0 },
            vel: V3 { x: 0, y: ORBIT_SPEED as int, z: 0 },
            acc: v3_zero(),
        },
        time: 0,
    }
}

/// One proton/electron pair. The atom owns both particles exclusively.
#[derive(Clone, Copy, PartialEq, Eq, Structural, Debug)]
pub struct Atom {
    pub proton: Particle,
    pub electron: Particle,
    pub time: i128,
}

impl View for Atom {
    type V = AtomModel;

    open spec fn view(&self) -> AtomModel {
        AtomModel { proton: self.proton@, electron: self.electron@, time: self.time as int }
    }
}

impl Atom {
    /// A fresh hydrogen-like atom in its default configuration.
    pub fn new() -> (a: Atom)
        ensures
            a@ == atom_initial_model(),
    {
        let mut atom = Atom {
            proton: Particle::new(PROTON_MASS, PROTON_CHARGE),
            electron: Particle::new(ELECTRON_MASS, ELECTRON_CHARGE),
            time: 0,
        };
        atom.electron.position = Vec3 { x: BOHR_RADIUS, y: 0, z: 0 };
        atom.electron.velocity = Vec3 { x: 0, y: ORBIT_SPEED, z: 0 };
        atom
    }
}

} // verus!
