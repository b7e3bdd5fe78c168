//! Vectors and rotations in integer fixed point.
//!
//! World positions are millimetres and velocities millimetres per second.
//! A rotation is a quaternion whose components are scaled by [`UNIT`].
use vstd::prelude::*;

use crate::fixed::{
    abs, ceil_sqrt, ceil_sqrt_exec, div_toward_zero, lemma_abs_le_of_square_le,
    lemma_mul_abs_le, lemma_trunc_div_le, trunc_div, UNIT,
};

verus! {

/// A point or a displacement in world space.
#[derive(Clone, Copy, Debug, PartialEq, Eq, Structural)]
pub struct Vec3 {
    pub x: i64,
    pub y: i64,
    pub z: i64,
}

impl Vec3 {
    pub fn new(x: i64, y: i64, z: i64) -> (r: Vec3)
        ensures
            r == (Vec3 { x, y, z }),
    {
        Vec3 { x, y, z }
    }

    pub fn zero() -> (r: Vec3)
        ensures
            r == (Vec3 { x: 0, y: 0, z: 0 }),
    {
        Vec3 { x: 0, y: 0, z: 0 }
    }
}

/// An exact quaternion over the integers, the model of a [`Quat`].
pub struct Quaternion {
    pub w: int,
    pub x: int,
    pub y: int,
    pub z: int,
}

/// The Hamilton product `a * b`.
pub open spec fn qmul(a: Quaternion, b: Quaternion) -> Quaternion {
    Quaternion {
        w: a.w * b.w - a.x * b.x - a.y * b.y - a.z * b.z,
        x: a.w * b.x + a.x * b.w + a.y * b.z - a.z * b.y,
        y: a.w * b.y - a.x * b.z + a.y * b.w + a.z * b.x,
        z: a.w * b.z + a.x * b.y - a.y * b.x + a.z * b.w,
    }
}

pub open spec fn norm2(q: Quaternion) -> int {
    q.w * q.w + q.x * q.x + q.y * q.y + q.z * q.z
}

pub open spec fn identity() -> Quaternion {
    Quaternion { w: UNIT as int, x: 0, y: 0, z: 0 }
}

/// `q` scaled back to length [`UNIT`], each component rounded toward zero;
/// the zero quaternion becomes the identity.
pub open spec fn normalized(q: Quaternion) -> Quaternion {
    if norm2(q) == 0 {
        identity()
    } else {
        let n = ceil_sqrt(norm2(q));
        Quaternion {
            w: trunc_div(q.w * UNIT, n),
            x: trunc_div(q.x * UNIT, n),
            y: trunc_div(q.y * UNIT, n),
            z: trunc_div(q.z * UNIT, n),
        }
    }
}

/// A rotation in fixed point: `w + xi + yj + zk`, scaled by [`UNIT`].
#[derive(Clone, Copy, Debug, PartialEq, Eq, Structural)]
pub struct Quat {
    pub w: i64,
    pub x: i64,
    pub y: i64,
    pub z: i64,
}

impl View for Quat {
    type V = Quaternion;

    open spec fn view(&self) -> Quaternion {
        Quaternion { w: self.w as int, x: self.x as int, y: self.y as int, z: self.z as int }
    }
}

impl Quat {
    /// Every component lies within one [`UNIT`] of zero.
    pub open spec fn wf(&self) -> bool {
        &&& abs(self.w as int) <= UNIT
        &&& abs(self.x as int) <= UNIT
        &&& abs(self.y as int) <= UNIT
        &&& abs(self.z as int) <= UNIT
    }

    pub fn identity() -> (r: Quat)
        ensures
            r@ == identity(),
            r.wf(),
    {
        Quat { w: UNIT, x: 0, y: 0, z: 0 }
    }
}

impl Default for Quat {
    fn default() -> (r: Quat)
        ensures
            r@ == identity(),
    {
        Quat::identity()
    }
}

/// Components whose magnitude is at most 2^50.
pub open spec fn wide_bounded(w: i128, x: i128, y: i128, z: i128) -> bool {
    let b = 0x4_0000_0000_0000int;
    &&& abs(w as int) <= b
    &&& abs(x as int) <= b
    &&& abs(y as int) <= b
    &&& abs(z as int) <= b
}

proof fn lemma_normalized_component(e: int, n: int, sum: int)
    requires
        n > 0,
        e * e <= sum,
        sum <= n * n,
    ensures
        abs(trunc_div(e * UNIT, n)) <= UNIT,
{
    lemma_abs_le_of_square_le(e, n);
    assert(abs(e * UNIT) <= UNIT * n) by (nonlinear_arith)
        requires
            abs(e) <= n,
            n > 0,
    ;
    lemma_trunc_div_le(e * UNIT, n, UNIT as int);
}

/// Scales a wide quaternion back to length [`UNIT`].
pub fn normalize_wide(w: i128, x: i128, y: i128, z: i128) -> (r: Quat)
    requires
        wide_bounded(w, x, y, z),
    ensures
        r@ == normalized(Quaternion { w: w as int, x: x as int, y: y as int, z: z as int }),
        r.wf(),
{
    let ghost q = Quaternion { w: w as int, x: x as int, y: y as int, z: z as int };
    let b: i128 = 0x4_0000_0000_0000;
    proof {
        lemma_mul_abs_le(w as int, w as int, b as int, b as int);
        lemma_mul_abs_le(x as int, x as int, b as int, b as int);
        lemma_mul_abs_le(y as int, y as int, b as int, b as int);
        lemma_mul_abs_le(z as int, z as int, b as int, b as int);
        assert(w * w >= 0 && x * x >= 0 && y * y >= 0 && z * z >= 0) by (nonlinear_arith);
    }
    let sum: i128 = w * w + x * x + y * y + z * z;
    if sum == 0 {
        return Quat::identity();
    }
    let n = ceil_sqrt_exec(sum as u128) as i128;
    proof {
        lemma_normalized_component(w as int, n as int, sum as int);
        lemma_normalized_component(x as int, n as int, sum as int);
        lemma_normalized_component(y as int, n as int, sum as int);
        lemma_normalized_component(z as int, n as int, sum as int);
    }
    let u = UNIT as i128;
    let rw = div_toward_zero(w * u, n);
    let rx = div_toward_zero(x * u, n);
    let ry = div_toward_zero(y * u, n);
    let rz = div_toward_zero(z * u, n);
    Quat { w: rw as i64, x: rx as i64, y: ry as i64, z: rz as i64 }
}

} // verus!
