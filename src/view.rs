//! The orientation model: an actor's look direction and camera distance.
use vstd::prelude::*;

use crate::fixed::{abs, lemma_mul_abs_le, UNIT};
use crate::geometry::{normalize_wide, normalized, qmul, wide_bounded, Quat, Quaternion};

verus! {

/// Distance from the viewpoint to the camera, in millimetres.
pub const DEFAULT_CAMERA_DISTANCE: i64 = 20000;

/// A turn about one axis, given by the cosine and the sine of half its
/// angle, each scaled by [`UNIT`].
#[derive(Clone, Copy, Debug, PartialEq, Eq, Structural)]
pub struct Turn {
    pub cos: i64,
    pub sin: i64,
}

impl Turn {
    pub open spec fn wf(&self) -> bool {
        abs(self.cos as int) <= UNIT && abs(self.sin as int) <= UNIT
    }

    /// The turn by no angle.
    pub fn none() -> (r: Turn)
        ensures
            r == (Turn { cos: UNIT, sin: 0 }),
            r.wf(),
    {
        Turn { cos: UNIT, sin: 0 }
    }
}

/// The turn `t` about the world vertical axis (yaw).
pub open spec fn rot_y(t: Turn) -> Quaternion {
    Quaternion { w: t.cos as int, x: 0, y: t.sin as int, z: 0 }
}

/// The turn `t` about the horizontal axis (pitch).
pub open spec fn rot_x(t: Turn) -> Quaternion {
    Quaternion { w: t.cos as int, x: t.sin as int, y: 0, z: 0 }
}

/// Yaw applied globally (multiplied on the left) and pitch applied locally
/// (multiplied on the right) to the direction `q`, computed exactly.
pub open spec fn turned(yaw: Turn, q: Quaternion, pitch: Turn) -> Quaternion {
    qmul(qmul(rot_y(yaw), q), rot_x(pitch))
}

/// Pitch applied globally and yaw applied locally: the other order.
pub open spec fn turned_swapped(yaw: Turn, q: Quaternion, pitch: Turn) -> Quaternion {
    qmul(qmul(rot_x(pitch), q), rot_y(yaw))
}

proof fn lemma_swap_difference(c1: int, s1: int, c2: int, s2: int, w: int, x: int, y: int, z: int)
    ensures
        (c1 * w - s1 * y) * s2 + (c1 * x + s1 * z) * c2 - ((c2 * x + s2 * w) * c1 - (c2 * z + s2
            * y) * s1) == 2 * s1 * c2 * z,
        (c1 * y + s1 * w) * c2 + (c1 * z - s1 * x) * s2 - ((c2 * w - s2 * x) * s1 + (c2 * y - s2
            * z) * c1) == 2 * c1 * s2 * z,
{
    broadcast use vstd::arithmetic::mul::group_mul_properties;
}

/// The order of the two turns matters: for a direction with a non-zero `z`
/// component, yaw applied globally and pitch locally give a different
/// rotation than pitch applied globally and yaw locally, whenever at least
/// one of the turns is by a non-zero angle and neither is a half turn.
pub proof fn lemma_turn_order_matters(yaw: Turn, direction: Quat, pitch: Turn)
    requires
        direction.z != 0,
        yaw.cos != 0,
        pitch.cos != 0,
        yaw.sin != 0 || pitch.sin != 0,
    ensures
        turned(yaw, direction@, pitch) != turned_swapped(yaw, direction@, pitch),
{
    let (c1, s1) = (yaw.cos as int, yaw.sin as int);
    let (c2, s2) = (pitch.cos as int, pitch.sin as int);
    let (w, x, y, z) = (direction.w as int, direction.x as int, direction.y as int, direction.z as int);
    let e1 = turned(yaw, direction@, pitch);
    let e2 = turned_swapped(yaw, direction@, pitch);
    let a = qmul(rot_y(yaw), direction@);
    let b = qmul(rot_x(pitch), direction@);
    assert(a == Quaternion { w: c1 * w - s1 * y, x: c1 * x + s1 * z, y: c1 * y + s1 * w, z: c1 * z - s1 * x });
    assert(b == Quaternion { w: c2 * w - s2 * x, x: c2 * x + s2 * w, y: c2 * y - s2 * z, z: c2 * z + s2 * y });
    assert(e1.x == a.w * s2 + a.x * c2);
    assert(e2.x == b.x * c1 - b.z * s1);
    assert(e1.y == a.y * c2 + a.z * s2);
    assert(e2.y == b.w * s1 + b.y * c1);
    lemma_swap_difference(c1, s1, c2, s2, w, x, y, z);
    if s1 != 0 {
        assert(2 * s1 * c2 * z != 0) by (nonlinear_arith)
            requires
                s1 != 0,
                c2 != 0,
                z != 0,
        ;
    } else {
        assert(2 * c1 * s2 * z != 0) by (nonlinear_arith)
            requires
                s2 != 0,
                c1 != 0,
                z != 0,
        ;
    }
}

/// Where an actor looks, and how far behind it the camera stands.
#[derive(Clone, Copy, Debug, PartialEq, Eq, Structural)]
pub struct PlayerView {
    pub direction: Quat,
    pub distance: i64,
}

impl PlayerView {
    pub open spec fn wf(&self) -> bool {
        self.direction.wf()
    }

    pub fn new(direction: Quat, distance: i64) -> (r: PlayerView)
        ensures
            r == (PlayerView { direction, distance }),
    {
        PlayerView { direction, distance }
    }
}

/// `t` is the turn by no angle.
pub open spec fn is_no_turn(t: Turn) -> bool {
    t == (Turn { cos: UNIT, sin: 0 })
}

/// Turns the view by `yaw` about the world vertical axis and then by `pitch`
/// about its own horizontal axis, renormalises the direction, and resets the
/// camera distance. When neither turn has an angle the direction is left
/// exactly as it was.
pub fn rotate_camera(view: &mut PlayerView, yaw: Turn, pitch: Turn)
    requires
        old(view).wf(),
        yaw.wf(),
        pitch.wf(),
    ensures
        is_no_turn(yaw) && is_no_turn(pitch) ==> final(view).direction == old(view).direction,
        !(is_no_turn(yaw) && is_no_turn(pitch)) ==> final(view).direction@ == normalized(
            turned(yaw, old(view).direction@, pitch),
        ),
        final(view).distance == DEFAULT_CAMERA_DISTANCE,
        final(view).wf(),
{
    view.distance = DEFAULT_CAMERA_DISTANCE;
    if yaw.cos == UNIT && yaw.sin == 0 && pitch.cos == UNIT && pitch.sin == 0 {
        return;
    }
    let q = view.direction;
    let ghost u = UNIT as int;
    proof {
        lemma_mul_abs_le(yaw.cos as int, q.w as int, u, u);
        lemma_mul_abs_le(yaw.cos as int, q.x as int, u, u);
        lemma_mul_abs_le(yaw.cos as int, q.y as int, u, u);
        lemma_mul_abs_le(yaw.cos as int, q.z as int, u, u);
        lemma_mul_abs_le(yaw.sin as int, q.w as int, u, u);
        lemma_mul_abs_le(yaw.sin as int, q.x as int, u, u);
        lemma_mul_abs_le(yaw.sin as int, q.y as int, u, u);
        lemma_mul_abs_le(yaw.sin as int, q.z as int, u, u);
    }
    let (cy, sy) = (yaw.cos as i128, yaw.sin as i128);
    let (cp, sp) = (pitch.cos as i128, pitch.sin as i128);
    let (qw, qx, qy, qz) = (q.w as i128, q.x as i128, q.y as i128, q.z as i128);
    // yaw on the left
    let aw = cy * qw - sy * qy;
    let ax = cy * qx + sy * qz;
    let ay = cy * qy + sy * qw;
    let az = cy * qz - sy * qx;
    let ghost a = Quaternion { w: aw as int, x: ax as int, y: ay as int, z: az as int };
    assert(a == qmul(rot_y(yaw), q@));
    let ghost b2 = 2 * u * u;
    proof {
        lemma_mul_abs_le(aw as int, cp as int, b2, u);
        lemma_mul_abs_le(aw as int, sp as int, b2, u);
        lemma_mul_abs_le(ax as int, cp as int, b2, u);
        lemma_mul_abs_le(ax as int, sp as int, b2, u);
        lemma_mul_abs_le(ay as int, cp as int, b2, u);
        lemma_mul_abs_le(ay as int, sp as int, b2, u);
        lemma_mul_abs_le(az as int, cp as int, b2, u);
        lemma_mul_abs_le(az as int, sp as int, b2, u);
    }
    // pitch on the right
    let ew = aw * cp - ax * sp;
    let ex = aw * sp + ax * cp;
    let ey = ay * cp + az * sp;
    let ez = az * cp - ay * sp;
    assert(Quaternion { w: ew as int, x: ex as int, y: ey as int, z: ez as int } == turned(
        yaw,
        q@,
        pitch,
    ));
    assert(wide_bounded(ew, ex, ey, ez));
    view.direction = normalize_wide(ew, ex, ey, ez);
}

} // verus!
