//! Jumping: the ground-contact normal accumulated from contacts, and the
//! launch that a fresh jump press gives an actor touching something.
use vstd::prelude::*;

use crate::controls::{with_flag, InputType, Inputs, PlayerInputs};
use crate::fixed::{
    abs, ceil_sqrt, ceil_sqrt_exec, div_toward_zero, lemma_abs_le_of_square_le, lemma_mul_abs_le,
    lemma_trunc_div_le, trunc_div, UNIT,
};
use crate::geometry::{Quaternion, Vec3};
use crate::movement::{
    axis_bounded, axis_exec, input_dx, input_dy, local_axes, local_x, local_z, vadd, vec_model,
    Vector, VELOCITY_LIMIT,
};
use crate::view::PlayerView;

verus! {

/// Edge length of an actor's body, in millimetres; also the height a jump
/// aims for.
pub const PLAYER_SIZE: i64 = 2000;

/// Largest magnitude of a position component that contact sums accept.
pub const POSITION_LIMIT: i64 = 0x100_0000_0000;

/// Most contacts that one tick accumulates.
pub const MAX_CONTACTS: usize = 0x10_0000;

/// Largest magnitude of gravity, in millimetres per second squared.
pub const GRAVITY_LIMIT: i64 = 0x1_0000_0000;

/// The last ground-contact normal of an actor, scaled by [`UNIT`].
#[derive(Clone, Copy, Debug, PartialEq, Eq, Structural)]
pub struct JumpHelper {
    pub last_viable_normal: Vec3,
}

impl JumpHelper {
    pub open spec fn wf(&self) -> bool {
        axis_bounded(vec_model(self.last_viable_normal), UNIT as int)
    }

    /// Starts with the world's up direction.
    pub fn new() -> (r: JumpHelper)
        ensures
            r.last_viable_normal == (Vec3 { x: 0, y: UNIT, z: 0 }),
            r.wf(),
    {
        JumpHelper { last_viable_normal: Vec3 { x: 0, y: UNIT, z: 0 } }
    }
}

pub open spec fn vsub(a: Vector, b: Vector) -> Vector {
    Vector { x: a.x - b.x, y: a.y - b.y, z: a.z - b.z }
}

pub open spec fn is_zero(v: Vector) -> bool {
    v.x == 0 && v.y == 0 && v.z == 0
}

pub open spec fn length2(v: Vector) -> int {
    v.x * v.x + v.y * v.y + v.z * v.z
}

/// `v` scaled to length `len`, each component rounded toward zero; the zero
/// vector stays zero.
pub open spec fn scaled(v: Vector, len: int) -> Vector {
    if is_zero(v) {
        v
    } else {
        let n = ceil_sqrt(length2(v));
        Vector {
            x: trunc_div(v.x * len, n),
            y: trunc_div(v.y * len, n),
            z: trunc_div(v.z * len, n),
        }
    }
}

/// The sum over `contacts` of the displacement from each contact point to
/// `position`.
pub open spec fn displacement_sum(position: Vec3, contacts: Seq<Vec3>) -> Vector
    decreases contacts.len(),
{
    if contacts.len() == 0 {
        Vector { x: 0, y: 0, z: 0 }
    } else {
        vadd(
            displacement_sum(position, contacts.drop_last()),
            vsub(vec_model(position), vec_model(contacts.last())),
        )
    }
}

pub open spec fn position_in_range(p: Vec3) -> bool {
    axis_bounded(vec_model(p), POSITION_LIMIT as int)
}

proof fn lemma_scaled_component(e: int, len: int, sum: int, n: int)
    requires
        n > 0,
        len >= 0,
        e * e <= sum,
        sum <= n * n,
    ensures
        abs(trunc_div(e * len, n)) <= len,
{
    lemma_abs_le_of_square_le(e, n);
    assert(abs(e * len) <= len * n) by (nonlinear_arith)
        requires
            abs(e) <= n,
            len >= 0,
            n > 0,
    ;
    lemma_trunc_div_le(e * len, n, len);
}

/// Scales a vector to length `len`.
fn scale_exec(x: i128, y: i128, z: i128, len: i128) -> (r: (i128, i128, i128))
    requires
        axis_bounded(Vector { x: x as int, y: y as int, z: z as int }, 0x4000_0000_0000_0000),
        0 <= len <= 0x100_0000,
    ensures
        (Vector { x: r.0 as int, y: r.1 as int, z: r.2 as int }) == scaled(
            Vector { x: x as int, y: y as int, z: z as int },
            len as int,
        ),
        axis_bounded(Vector { x: r.0 as int, y: r.1 as int, z: r.2 as int }, len as int),
{
    let ghost b = 0x4000_0000_0000_0000int;
    if x == 0 && y == 0 && z == 0 {
        return (0, 0, 0);
    }
    proof {
        lemma_mul_abs_le(x as int, x as int, b, b);
        lemma_mul_abs_le(y as int, y as int, b, b);
        lemma_mul_abs_le(z as int, z as int, b, b);
        assert(x * x >= 0 && y * y >= 0 && z * z >= 0) by (nonlinear_arith);
        if x != 0 {
            assert(x * x > 0) by (nonlinear_arith) requires x != 0;
        }
        if y != 0 {
            assert(y * y > 0) by (nonlinear_arith) requires y != 0;
        }
        if z != 0 {
            assert(z * z > 0) by (nonlinear_arith) requires z != 0;
        }
    }
    let sum: i128 = x * x + y * y + z * z;
    let n = ceil_sqrt_exec(sum as u128) as i128;
    proof {
        lemma_scaled_component(x as int, len as int, sum as int, n as int);
        lemma_scaled_component(y as int, len as int, sum as int, n as int);
        lemma_scaled_component(z as int, len as int, sum as int, n as int);
        lemma_mul_abs_le(x as int, len as int, b, 0x100_0000);
        lemma_mul_abs_le(y as int, len as int, b, 0x100_0000);
        lemma_mul_abs_le(z as int, len as int, b, 0x100_0000);
    }
    (div_toward_zero(x * len, n), div_toward_zero(y * len, n), div_toward_zero(z * len, n))
}

/// Recomputes the contact normal from this tick's contacts: the sum of the
/// displacements from each contact point to the actor, scaled to unit
/// length; zero when there are no contacts.
pub fn update_jump_normals(helper: &mut JumpHelper, position: &Vec3, contacts: &Vec<Vec3>)
    requires
        position_in_range(*position),
        contacts@.len() <= MAX_CONTACTS,
        forall|i: int| 0 <= i < contacts@.len() ==> position_in_range(#[trigger] contacts@[i]),
    ensures
        vec_model(final(helper).last_viable_normal) == scaled(
            displacement_sum(*position, contacts@),
            UNIT as int,
        ),
        final(helper).wf(),
{
    let (px, py, pz) = (position.x as i128, position.y as i128, position.z as i128);
    let mut sx: i128 = 0;
    let mut sy: i128 = 0;
    let mut sz: i128 = 0;
    let mut i: usize = 0;
    while i < contacts.len()
        invariant
            i <= contacts@.len() <= MAX_CONTACTS,
            position_in_range(*position),
            px == position.x && py == position.y && pz == position.z,
            forall|j: int| 0 <= j < contacts@.len() ==> position_in_range(#[trigger] contacts@[j]),
            (Vector { x: sx as int, y: sy as int, z: sz as int }) == displacement_sum(
                *position,
                contacts@.subrange(0, i as int),
            ),
            axis_bounded(
                Vector { x: sx as int, y: sy as int, z: sz as int },
                i * 0x200_0000_0000,
            ),
        decreases contacts@.len() - i,
    {
        let c = contacts[i];
        assert(position_in_range(contacts@[i as int]));
        sx = sx + (px - c.x as i128);
        sy = sy + (py - c.y as i128);
        sz = sz + (pz - c.z as i128);
        assert(contacts@.subrange(0, i + 1).drop_last() == contacts@.subrange(0, i as int));
        assert(contacts@.subrange(0, i + 1).last() == c);
        i = i + 1;
    }
    assert(contacts@.subrange(0, contacts@.len() as int) == contacts@);
    let (nx, ny, nz) = scale_exec(sx, sy, sz, UNIT as i128);
    helper.last_viable_normal = Vec3 { x: nx as i64, y: ny as i64, z: nz as i64 };
}

/// Launch speed that lifts a body [`PLAYER_SIZE`] high under gravity `g`,
/// `sqrt(2 * g * h)` rounded up, times 1.1.
pub open spec fn launch_speed(g: int) -> int {
    trunc_div(ceil_sqrt(2 * g * PLAYER_SIZE) * 11, 10)
}

/// The jump direction before scaling, `UNIT * UNIT` times: the contact
/// normal plus the held horizontal input along the view's axes.
pub open spec fn jump_blend(q: Quaternion, i: Inputs, normal: Vec3) -> Vector {
    let (lx, lz) = (local_x(q), local_z(q));
    let (dx, dy) = (input_dx(i), input_dy(i));
    Vector {
        x: normal.x * UNIT + dx * lx.x + dy * lz.x,
        y: normal.y * UNIT + dx * lx.y + dy * lz.y,
        z: normal.z * UNIT + dx * lx.z + dy * lz.z,
    }
}

/// The velocity change of a jump under vertical gravity `gravity_y`.
pub open spec fn jump_impulse(q: Quaternion, i: Inputs, normal: Vec3, gravity_y: int) -> Vector {
    scaled(jump_blend(q, i, normal), launch_speed(-gravity_y))
}

pub open spec fn velocity_in_range_3d(v: Vec3) -> bool {
    axis_bounded(vec_model(v), VELOCITY_LIMIT as int)
}

fn launch_speed_exec(g: i64) -> (r: i128)
    requires
        0 <= g <= GRAVITY_LIMIT,
    ensures
        r == launch_speed(g as int),
        0 <= r <= 0x100_0000,
{
    let m: u128 = 2 * (g as u128) * (PLAYER_SIZE as u128);
    let n = ceil_sqrt_exec(m) as i128;
    proof {
        let ghost k = 0x80_0000int;
        assert(k * k >= m) by (nonlinear_arith)
            requires
                m == 2 * g * PLAYER_SIZE,
                g <= GRAVITY_LIMIT,
                k == 0x80_0000int,
        ;
        if n > k {
            crate::fixed::lemma_square_monotone(k, n - 1);
        }
    }
    div_toward_zero(n * 11, 10)
}

/// Consumes a fresh jump press; when one was pending and the actor touches
/// something, adds a launch along the contact normal blended with the held
/// horizontal input. Answers whether the actor jumped.
pub fn jump(
    velocity: &mut Vec3,
    view: &PlayerView,
    inputs: &mut PlayerInputs,
    helper: &JumpHelper,
    touching: bool,
    gravity_y: i64,
) -> (r: bool)
    requires
        view.wf(),
        helper.wf(),
        -GRAVITY_LIMIT <= gravity_y <= 0,
        velocity_in_range_3d(*old(velocity)),
    ensures
        r == (old(inputs).rising.jump && touching),
        final(inputs).current == old(inputs).current,
        final(inputs).rising == with_flag(old(inputs).rising, InputType::Jump, false),
        r ==> vec_model(*final(velocity)) == vadd(
            vec_model(*old(velocity)),
            jump_impulse(
                view.direction@,
                old(inputs).current,
                helper.last_viable_normal,
                gravity_y as int,
            ),
        ),
        !r ==> *final(velocity) == *old(velocity),
{
    let jumped = inputs.is_input_changed_to_true_and_set_to_false(InputType::Jump);
    if !(jumped && touching) {
        return false;
    }
    let input = inputs.get();
    let (lx, lz) = local_axes(&view.direction);
    let dx = axis_exec(input.right, input.left);
    let dy = axis_exec(input.down, input.up);
    let n = helper.last_viable_normal;
    let u = UNIT as i128;
    let ghost b = 4 * UNIT * UNIT;
    proof {
        lemma_mul_abs_le(dx as int, lx.0 as int, 1, b);
        lemma_mul_abs_le(dx as int, lx.1 as int, 1, b);
        lemma_mul_abs_le(dx as int, lx.2 as int, 1, b);
        lemma_mul_abs_le(dy as int, lz.0 as int, 1, b);
        lemma_mul_abs_le(dy as int, lz.1 as int, 1, b);
        lemma_mul_abs_le(dy as int, lz.2 as int, 1, b);
        lemma_mul_abs_le(n.x as int, UNIT as int, UNIT as int, UNIT as int);
        lemma_mul_abs_le(n.y as int, UNIT as int, UNIT as int, UNIT as int);
        lemma_mul_abs_le(n.z as int, UNIT as int, UNIT as int, UNIT as int);
    }
    let bx = (n.x as i128) * u + dx * lx.0 + dy * lz.0;
    let by_ = (n.y as i128) * u + dx * lx.1 + dy * lz.1;
    let bz = (n.z as i128) * u + dx * lx.2 + dy * lz.2;
    let speed = launch_speed_exec(-gravity_y);
    let (ix, iy, iz) = scale_exec(bx, by_, bz, speed);
    velocity.x = velocity.x + ix as i64;
    velocity.y = velocity.y + iy as i64;
    velocity.z = velocity.z + iz as i64;
    true
}

} // verus!
