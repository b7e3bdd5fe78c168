//! The movement resolver: the velocity change of one simulation tick.
use vstd::prelude::*;

use crate::controls::Inputs;
use crate::fixed::{abs, div_toward_zero, lemma_mul_abs_le, lemma_trunc_div_le, trunc_div, UNIT};
use crate::geometry::{Quat, Quaternion, Vec3};
use crate::view::PlayerView;

verus! {

/// Velocity added per tick by a held direction, in millimetres per second.
pub const PLAYER_MOVE_SPEED: i64 = 70;

/// Factor on the tick's velocity change while sprinting.
pub const SHIFT_ACCELERATION: i64 = 2;

/// Largest magnitude of a velocity component that a tick may still add to.
pub const VELOCITY_LIMIT: i64 = 0x7FFF_FFFF_0000_0000;

/// A vector of exact integers.
pub struct Vector {
    pub x: int,
    pub y: int,
    pub z: int,
}

pub open spec fn vec_model(v: Vec3) -> Vector {
    Vector { x: v.x as int, y: v.y as int, z: v.z as int }
}

/// `UNIT * UNIT` times the world X axis turned by the unit rotation `q`.
pub open spec fn local_x(q: Quaternion) -> Vector {
    Vector {
        x: UNIT * UNIT - 2 * (q.y * q.y + q.z * q.z),
        y: 2 * (q.x * q.y + q.w * q.z),
        z: 2 * (q.x * q.z - q.w * q.y),
    }
}

/// `UNIT * UNIT` times the world Z axis turned by the unit rotation `q`.
pub open spec fn local_z(q: Quaternion) -> Vector {
    Vector {
        x: 2 * (q.x * q.z + q.w * q.y),
        y: 2 * (q.y * q.z - q.w * q.x),
        z: UNIT * UNIT - 2 * (q.x * q.x + q.y * q.y),
    }
}

/// `1`, `0` or `-1` for a pair of opposite keys.
pub open spec fn axis(positive: bool, negative: bool) -> int {
    (if positive { 1int } else { 0int }) - (if negative { 1int } else { 0int })
}

/// Sideways input: right minus left.
pub open spec fn input_dx(i: Inputs) -> int {
    axis(i.right, i.left)
}

/// Forward input along the view's Z axis: down minus up.
pub open spec fn input_dy(i: Inputs) -> int {
    axis(i.down, i.up)
}

pub open spec fn acceleration(i: Inputs) -> int {
    if i.sprint { SHIFT_ACCELERATION as int } else { 1 }
}

/// The horizontal velocity change of one tick at walking pace.
pub open spec fn walk_delta(q: Quaternion, i: Inputs) -> Vector {
    let (lx, lz) = (local_x(q), local_z(q));
    let uu = UNIT * UNIT;
    Vector {
        x: trunc_div(PLAYER_MOVE_SPEED * (input_dx(i) * lx.x + input_dy(i) * lz.x), uu),
        y: 0,
        z: trunc_div(PLAYER_MOVE_SPEED * (input_dx(i) * lx.z + input_dy(i) * lz.z), uu),
    }
}

/// The velocity change of one tick: the walking change, doubled when sprinting.
pub open spec fn movement_delta(q: Quaternion, i: Inputs) -> Vector {
    let d = walk_delta(q, i);
    Vector { x: acceleration(i) * d.x, y: 0, z: acceleration(i) * d.z }
}

pub open spec fn vadd(a: Vector, b: Vector) -> Vector {
    Vector { x: a.x + b.x, y: a.y + b.y, z: a.z + b.z }
}

/// The velocity `v` after one tick of movement.
pub open spec fn moved(v: Vector, q: Quaternion, i: Inputs) -> Vector {
    vadd(v, movement_delta(q, i))
}

/// The velocity `v` after `n` ticks of movement with the same view and input.
pub open spec fn after_ticks(v: Vector, q: Quaternion, i: Inputs, n: nat) -> Vector
    decreases n,
{
    if n == 0 {
        v
    } else {
        moved(after_ticks(v, q, i, (n - 1) as nat), q, i)
    }
}

/// The horizontal components can take one more tick of change.
pub open spec fn velocity_in_range(v: Vec3) -> bool {
    abs(v.x as int) <= VELOCITY_LIMIT && abs(v.z as int) <= VELOCITY_LIMIT
}

pub open spec fn axis_bounded(v: Vector, b: int) -> bool {
    abs(v.x) <= b && abs(v.y) <= b && abs(v.z) <= b
}

/// The world X and Z axes turned by `q`, scaled by `UNIT * UNIT`.
pub fn local_axes(q: &Quat) -> (r: ((i128, i128, i128), (i128, i128, i128)))
    requires
        q.wf(),
    ensures
        (Vector { x: r.0.0 as int, y: r.0.1 as int, z: r.0.2 as int }) == local_x(q@),
        (Vector { x: r.1.0 as int, y: r.1.1 as int, z: r.1.2 as int }) == local_z(q@),
        axis_bounded(local_x(q@), 4 * UNIT * UNIT),
        axis_bounded(local_z(q@), 4 * UNIT * UNIT),
{
    let ghost u = UNIT as int;
    let (w, x, y, z) = (q.w as i128, q.x as i128, q.y as i128, q.z as i128);
    proof {
        lemma_mul_abs_le(w as int, x as int, u, u);
        lemma_mul_abs_le(w as int, y as int, u, u);
        lemma_mul_abs_le(w as int, z as int, u, u);
        lemma_mul_abs_le(x as int, y as int, u, u);
        lemma_mul_abs_le(x as int, z as int, u, u);
        lemma_mul_abs_le(y as int, z as int, u, u);
        lemma_mul_abs_le(x as int, x as int, u, u);
        lemma_mul_abs_le(y as int, y as int, u, u);
        lemma_mul_abs_le(z as int, z as int, u, u);
        assert(x * x >= 0 && y * y >= 0 && z * z >= 0) by (nonlinear_arith);
    }
    let uu: i128 = (UNIT as i128) * (UNIT as i128);
    let lx = (uu - 2 * (y * y + z * z), 2 * (x * y + w * z), 2 * (x * z - w * y));
    let lz = (2 * (x * z + w * y), 2 * (y * z - w * x), uu - 2 * (x * x + y * y));
    (lx, lz)
}

proof fn lemma_combination_bound(dx: int, dy: int, a: int, b: int, bound: int)
    requires
        abs(dx) <= 1,
        abs(dy) <= 1,
        abs(a) <= bound,
        abs(b) <= bound,
    ensures
        abs(PLAYER_MOVE_SPEED * (dx * a + dy * b)) <= (2 * PLAYER_MOVE_SPEED * bound),
{
    lemma_mul_abs_le(dx, a, 1, bound);
    lemma_mul_abs_le(dy, b, 1, bound);
    let s = dx * a + dy * b;
    assert(abs(s) <= 2 * bound);
    assert(abs(70 * s) <= 140 * bound) by (nonlinear_arith)
        requires
            abs(s) <= 2 * bound,
    ;
}

pub(crate) fn axis_exec(positive: bool, negative: bool) -> (r: i128)
    ensures
        r == axis(positive, negative),
{
    (if positive { 1 } else { 0 }) - (if negative { 1 } else { 0 })
}

/// The velocity change of one tick at walking pace.
fn walk_delta_exec(q: &Quat, input: &Inputs) -> (r: (i64, i64))
    requires
        q.wf(),
    ensures
        r.0 == walk_delta(q@, *input).x,
        r.1 == walk_delta(q@, *input).z,
        abs(r.0 as int) <= 8 * PLAYER_MOVE_SPEED,
        abs(r.1 as int) <= 8 * PLAYER_MOVE_SPEED,
{
    let (lx, lz) = local_axes(q);
    let dx = axis_exec(input.right, input.left);
    let dy = axis_exec(input.down, input.up);
    let ghost b = 4 * UNIT * UNIT;
    proof {
        lemma_combination_bound(dx as int, dy as int, lx.0 as int, lz.0 as int, b);
        lemma_combination_bound(dx as int, dy as int, lx.2 as int, lz.2 as int, b);
    }
    let uu: i128 = (UNIT as i128) * (UNIT as i128);
    let speed = PLAYER_MOVE_SPEED as i128;
    let nx = speed * (dx * lx.0 + dy * lz.0);
    let nz = speed * (dx * lx.2 + dy * lz.2);
    proof {
        lemma_trunc_div_le(nx as int, uu as int, 8 * PLAYER_MOVE_SPEED);
        lemma_trunc_div_le(nz as int, uu as int, 8 * PLAYER_MOVE_SPEED);
    }
    (div_toward_zero(nx, uu) as i64, div_toward_zero(nz, uu) as i64)
}

/// The velocity change of one tick for the view direction `q` and the
/// flags `input`.
pub fn movement_delta_exec(q: &Quat, input: &Inputs) -> (r: Vec3)
    requires
        q.wf(),
    ensures
        vec_model(r) == movement_delta(q@, *input),
        abs(r.x as int) <= 8 * SHIFT_ACCELERATION * PLAYER_MOVE_SPEED,
        abs(r.z as int) <= 8 * SHIFT_ACCELERATION * PLAYER_MOVE_SPEED,
{
    let (wx, wz) = walk_delta_exec(q, input);
    if input.sprint {
        Vec3 { x: SHIFT_ACCELERATION * wx, y: 0, z: SHIFT_ACCELERATION * wz }
    } else {
        Vec3 { x: wx, y: 0, z: wz }
    }
}

/// Adds one tick's movement to `velocity`. The change depends on the view
/// direction and the flags alone: it is a per-tick impulse, never scaled by
/// elapsed time.
pub fn move_characters(velocity: &mut Vec3, view: &PlayerView, input: &Inputs)
    requires
        view.wf(),
        velocity_in_range(*old(velocity)),
    ensures
        vec_model(*final(velocity)) == moved(vec_model(*old(velocity)), view.direction@, *input),
{
    let d = movement_delta_exec(&view.direction, input);
    velocity.x = velocity.x + d.x;
    velocity.z = velocity.z + d.z;
}

/// Ticks accumulate: `n` ticks with the same view and input add exactly `n`
/// times the change of one tick, however the frames between them were timed.
pub proof fn lemma_ticks_accumulate(v: Vector, q: Quaternion, i: Inputs, n: nat)
    ensures
        after_ticks(v, q, i, n) == vadd(
            v,
            Vector {
                x: n * movement_delta(q, i).x,
                y: 0,
                z: n * movement_delta(q, i).z,
            },
        ),
    decreases n,
{
    if n > 0 {
        lemma_ticks_accumulate(v, q, i, (n - 1) as nat);
        let d = movement_delta(q, i);
        let prev = after_ticks(v, q, i, (n - 1) as nat);
        assert(after_ticks(v, q, i, n) == vadd(prev, d));
        assert(prev.x == v.x + (n - 1) * d.x);
        assert((n - 1) * d.x + d.x == n * d.x) by (nonlinear_arith);
        assert((n - 1) * d.z + d.z == n * d.z) by (nonlinear_arith);
    } else {
        let d = movement_delta(q, i);
        assert(0 * d.x == 0 && 0 * d.z == 0);
    }
}

/// Sprinting doubles the change of a tick, in the same direction.
pub proof fn lemma_sprint_doubles(q: Quaternion, i: Inputs)
    ensures
        movement_delta(q, Inputs { sprint: true, ..i }) == (Vector {
            x: 2 * movement_delta(q, Inputs { sprint: false, ..i }).x,
            y: 0,
            z: 2 * movement_delta(q, Inputs { sprint: false, ..i }).z,
        }),
{
}

} // verus!
