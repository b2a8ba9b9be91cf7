//! Three-component integer vectors: the executable representation and its
//! unbounded mathematical model.

use vstd::prelude::*;

verus! {

/// Mathematical model of a 3-vector: unbounded integer components.
#[verifier::ext_equal]
pub struct V3 {
    pub x: int,
    pub y: int,
    pub z: int,
}

/// The zero vector.
pub open spec fn v3_zero() -> V3 {
    V3 { x: 0, y: 0, z: 0 }
}

/// Every component of `v` lies in `[-m, m]`.
pub open spec fn in_box(v: V3, m: int) -> bool {
    &&& -m <= v.x <= m
    &&& -m <= v.y <= m
    &&& -m <= v.z <= m
}

/// An executable 3-vector of fixed-point components.
#[derive(Clone, Copy, PartialEq, Eq, Structural, Debug)]
pub struct Vec3 {
    pub x: i128,
    pub y: i128,
    pub z: i128,
}

impl View for Vec3 {
    type V = V3;

    open spec fn view(&self) -> V3 {
        V3 { x: self.x as int, y: self.y as int, z: self.z as int }
    }
}

impl Vec3 {
    /// The zero vector.
    pub fn zero() -> (v: Vec3)
        ensures
            v@ == v3_zero(),
    {
        Vec3 { x: 0, y: 0, z: 0 }
    }
}

} // verus!
