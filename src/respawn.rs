//! The bounds monitor and the recovery controller: an actor outside its
//! bounds is moved to a spawn coordinate and, for a grace window, stops
//! colliding with other actors.
use vstd::prelude::*;

use crate::geometry::Vec3;
use crate::spawn::{lemma_cursor_in_range, SpawnPoint, SpawnProperty};

verus! {

/// Grace window after a respawn, in milliseconds.
pub const DEFAULT_NOCLIP_MS: u64 = 10000;

#[derive(Clone, Copy, Debug, PartialEq, Eq, Structural)]
pub enum AxisName {
    X,
    Y,
    Z,
}

/// One bounds rule: the actor is out of bounds when its coordinate on the
/// axis is strictly greater (`More`) or strictly less (`Less`) than the
/// threshold, in millimetres.
#[derive(Clone, Copy, Debug, PartialEq, Eq, Structural)]
pub enum DespawnReason {
    More(i64, AxisName),
    Less(i64, AxisName),
}

/// How long collisions stay off after a respawn.
#[derive(Clone, Copy, Debug, PartialEq, Eq, Structural)]
pub enum NoclipDuration {
    /// No grace window.
    Off,
    /// A window of the given number of milliseconds.
    Timer(u64),
    /// A window that lasts until it is ended explicitly.
    Gated,
}

/// Whether an actor is inside a grace window.
#[derive(Clone, Copy, Debug, PartialEq, Eq, Structural)]
pub enum GraceState {
    Inactive,
    /// The window ends after the given number of milliseconds.
    Timed(u64),
    /// The window lasts until it is ended explicitly.
    Gated,
}

/// Collision layers of an actor.
#[derive(Clone, Copy, Debug, PartialEq, Eq, Structural)]
pub enum CollisionLayer {
    /// Actors with this layer cannot collide with each other.
    ActorNoclip,
    /// The default collision layer.
    Default,
}

/// What one tick of recovery asks of the physics engine.
#[derive(Clone, Copy, Debug, PartialEq, Eq, Structural)]
pub struct Recovery {
    /// Move the actor here.
    pub teleport: Option<Vec3>,
    /// Put the actor on this collision layer.
    pub layer: Option<CollisionLayer>,
    /// A respawn was due but the registry was empty.
    pub missing_spawn: bool,
}

/// The recovery state of an actor.
#[derive(Debug)]
pub struct Respawn {
    pub reasons: Vec<DespawnReason>,
    pub spawn_point: SpawnPoint,
    pub noclip: NoclipDuration,
    pub grace: GraceState,
}

pub open spec fn coord(p: Vec3, axis: AxisName) -> int {
    match axis {
        AxisName::X => p.x as int,
        AxisName::Y => p.y as int,
        AxisName::Z => p.z as int,
    }
}

pub open spec fn rule_hit(rule: DespawnReason, p: Vec3) -> bool {
    match rule {
        DespawnReason::More(t, axis) => coord(p, axis) > t,
        DespawnReason::Less(t, axis) => coord(p, axis) < t,
    }
}

/// `p` breaks at least one of `rules`.
pub open spec fn violates(rules: Seq<DespawnReason>, p: Vec3) -> bool {
    exists|i: int| 0 <= i < rules.len() && #[trigger] rule_hit(rules[i], p)
}

/// The grace state `dt` milliseconds later.
pub open spec fn advance(g: GraceState, dt: u64) -> GraceState {
    match g {
        GraceState::Timed(rem) => if dt >= rem {
            GraceState::Inactive
        } else {
            GraceState::Timed((rem - dt) as u64)
        },
        _ => g,
    }
}

/// Milliseconds left in a timed window.
pub open spec fn remaining(g: GraceState) -> int {
    match g {
        GraceState::Timed(rem) => rem as int,
        _ => 0,
    }
}

/// A timed window runs out within these `dt` milliseconds.
pub open spec fn expires(g: GraceState, dt: u64) -> bool {
    match g {
        GraceState::Timed(rem) => dt >= rem,
        _ => false,
    }
}

/// The grace state right after a respawn.
pub open spec fn armed(n: NoclipDuration) -> GraceState {
    match n {
        NoclipDuration::Off => GraceState::Inactive,
        NoclipDuration::Timer(ms) => GraceState::Timed(ms),
        NoclipDuration::Gated => GraceState::Gated,
    }
}

pub open spec fn restore_layer(ended: bool) -> Option<CollisionLayer> {
    if ended {
        Some(CollisionLayer::Default)
    } else {
        None
    }
}

/// The layer command of a tick that respawns the actor.
pub open spec fn respawn_layer(n: NoclipDuration) -> Option<CollisionLayer> {
    match n {
        NoclipDuration::Off => None,
        _ => Some(CollisionLayer::ActorNoclip),
    }
}

/// The result of one tick of recovery.
pub struct Step {
    pub grace: GraceState,
    pub spawn_point: SpawnPoint,
    /// A coordinate was taken from the registry.
    pub taken: bool,
    pub recovery: Recovery,
}

/// One tick of recovery for the actor at `position`, `dt` milliseconds after
/// the last. An actor that starts the tick outside any grace window and
/// breaks a rule is moved to the registry's next coordinate and a new window
/// is armed. An actor inside a window only has its timer advanced; when the
/// window runs out, collisions are restored and the bounds apply again from
/// the next tick.
pub open spec fn step(s: Respawn, position: Vec3, points: Seq<Vec3>, cursor: nat, dt: u64) -> Step {
    let g = advance(s.grace, dt);
    let ended = expires(s.grace, dt);
    let due = s.grace == GraceState::Inactive && violates(s.reasons@, position);
    if !due {
        Step {
            grace: g,
            spawn_point: s.spawn_point,
            taken: false,
            recovery: Recovery { teleport: None, layer: restore_layer(ended), missing_spawn: false },
        }
    } else if points.len() == 0 {
        Step {
            grace: g,
            spawn_point: s.spawn_point,
            taken: false,
            recovery: Recovery { teleport: None, layer: restore_layer(ended), missing_spawn: true },
        }
    } else {
        let p = points[cursor as int];
        Step {
            grace: armed(s.noclip),
            spawn_point: SpawnPoint { position: p },
            taken: true,
            recovery: Recovery {
                teleport: Some(p),
                layer: respawn_layer(s.noclip),
                missing_spawn: false,
            },
        }
    }
}

impl DespawnReason {
    /// Whether `p` breaks this rule.
    pub fn is_violated_by(&self, p: &Vec3) -> (r: bool)
        ensures
            r == rule_hit(*self, *p),
    {
        match *self {
            DespawnReason::More(t, axis) => axis_coord(p, axis) > t,
            DespawnReason::Less(t, axis) => axis_coord(p, axis) < t,
        }
    }
}

fn axis_coord(p: &Vec3, axis: AxisName) -> (r: i64)
    ensures
        r == coord(*p, axis),
{
    match axis {
        AxisName::X => p.x,
        AxisName::Y => p.y,
        AxisName::Z => p.z,
    }
}

/// Whether `p` breaks any of `rules`; an empty rule set is never broken.
pub fn violates_any(rules: &Vec<DespawnReason>, p: &Vec3) -> (r: bool)
    ensures
        r == violates(rules@, *p),
{
    let mut i: usize = 0;
    while i < rules.len()
        invariant
            i <= rules@.len(),
            forall|j: int| 0 <= j < i ==> !#[trigger] rule_hit(rules@[j], *p),
        decreases rules@.len() - i,
    {
        if rules[i].is_violated_by(p) {
            return true;
        }
        i = i + 1;
    }
    false
}

impl Respawn {
    /// Recovery state outside any grace window.
    pub fn new(reasons: Vec<DespawnReason>, spawn_point: SpawnPoint, noclip: NoclipDuration) -> (r: Respawn)
        ensures
            r.reasons@ == reasons@,
            r.spawn_point == spawn_point,
            r.noclip == noclip,
            r.grace == GraceState::Inactive,
    {
        Respawn { reasons, spawn_point, noclip, grace: GraceState::Inactive }
    }

    pub open spec fn default_reasons_spec() -> Seq<DespawnReason> {
        seq![
            DespawnReason::More(200000i64, AxisName::Y),
            DespawnReason::Less(-10000i64, AxisName::Y),
            DespawnReason::More(100000i64, AxisName::X),
            DespawnReason::Less(-100000i64, AxisName::X),
            DespawnReason::More(100000i64, AxisName::Z),
            DespawnReason::Less(-100000i64, AxisName::Z),
        ]
    }

    /// The six rules of the default playable box: 200 m up, 10 m down and
    /// 100 m out on each horizontal axis.
    pub fn default_reasons() -> (r: Vec<DespawnReason>)
        ensures
            r@ == Self::default_reasons_spec(),
    {
        vec![
            DespawnReason::More(200000, AxisName::Y),
            DespawnReason::Less(-10000, AxisName::Y),
            DespawnReason::More(100000, AxisName::X),
            DespawnReason::Less(-100000, AxisName::X),
            DespawnReason::More(100000, AxisName::Z),
            DespawnReason::Less(-100000, AxisName::Z),
        ]
    }

    /// Whether collisions with other actors are currently off.
    pub fn in_grace(&self) -> (r: bool)
        ensures
            r == (self.grace != GraceState::Inactive),
    {
        !matches!(self.grace, GraceState::Inactive)
    }

    /// Ends a grace window early, whatever its kind; answers whether one was
    /// open, in which case the default collision layer is to be restored.
    pub fn end_grace(&mut self) -> (r: bool)
        ensures
            r == (old(self).grace != GraceState::Inactive),
            final(self).grace == GraceState::Inactive,
            final(self).reasons@ == old(self).reasons@,
            final(self).spawn_point == old(self).spawn_point,
            final(self).noclip == old(self).noclip,
    {
        let was = self.in_grace();
        self.grace = GraceState::Inactive;
        was
    }

    /// One tick of the bounds monitor and recovery controller; see [`step`].
    pub fn respawn_tick(&mut self, position: Vec3, registry: &mut SpawnProperty, dt: u64) -> (r: Recovery)
        requires
            old(registry).wf(),
        ensures
            ({
                let st = step(*old(self), position, old(registry).points(), old(registry).cursor(), dt);
                &&& r == st.recovery
                &&& final(self).grace == st.grace
                &&& final(self).spawn_point == st.spawn_point
                &&& final(self).reasons@ == old(self).reasons@
                &&& final(self).noclip == old(self).noclip
                &&& final(registry).wf()
                &&& old(registry).cursor_in_range()
                &&& final(registry).cursor_in_range()
                &&& (r.teleport matches Some(p) ==> old(registry).points().contains(p))
                &&& final(registry).points() == old(registry).points()
                &&& final(registry).cursor() == if st.taken {
                    (old(registry).cursor() + 1) % old(registry).points().len()
                } else {
                    old(registry).cursor()
                }
            }),
    {
        proof {
            lemma_cursor_in_range(&*registry);
        }
        let ended = match self.grace {
            GraceState::Timed(rem) => dt >= rem,
            _ => false,
        };
        let g = match self.grace {
            GraceState::Timed(rem) => if dt >= rem {
                GraceState::Inactive
            } else {
                GraceState::Timed(rem - dt)
            },
            other => other,
        };
        let restore = if ended {
            Some(CollisionLayer::Default)
        } else {
            None
        };
        let was_inactive = matches!(self.grace, GraceState::Inactive);
        self.grace = g;
        if !was_inactive || !violates_any(&self.reasons, &position) {
            return Recovery { teleport: None, layer: restore, missing_spawn: false };
        }
        match registry.take() {
            Err(_) => Recovery { teleport: None, layer: restore, missing_spawn: true },
            Ok(p) => {
                self.spawn_point = SpawnPoint::new(p);
                self.grace = match self.noclip {
                    NoclipDuration::Off => GraceState::Inactive,
                    NoclipDuration::Timer(ms) => GraceState::Timed(ms),
                    NoclipDuration::Gated => GraceState::Gated,
                };
                let layer = match self.noclip {
                    NoclipDuration::Off => None,
                    _ => Some(CollisionLayer::ActorNoclip),
                };
                Recovery { teleport: Some(p), layer, missing_spawn: false }
            },
        }
    }
}

/// Inside a grace window a broken rule changes nothing: no teleport, no
/// coordinate taken, and the timer only counts down, never restarting or
/// growing. A timed window that runs out within the tick leaves the actor
/// active with its default collision layer restored.
pub proof fn lemma_grace_idempotent(
    s: Respawn,
    position: Vec3,
    points: Seq<Vec3>,
    cursor: nat,
    dt: u64,
)
    requires
        s.grace != GraceState::Inactive,
    ensures
        step(s, position, points, cursor, dt).recovery.teleport == None::<Vec3>,
        !step(s, position, points, cursor, dt).recovery.missing_spawn,
        !step(s, position, points, cursor, dt).taken,
        step(s, position, points, cursor, dt).spawn_point == s.spawn_point,
        step(s, position, points, cursor, dt).grace == advance(s.grace, dt),
        s.grace == GraceState::Gated ==> step(s, position, points, cursor, dt).grace
            == GraceState::Gated,
        s.grace is Timed && dt < remaining(s.grace) ==> step(s, position, points, cursor, dt).grace
            == GraceState::Timed((remaining(s.grace) - dt) as u64)
            && step(s, position, points, cursor, dt).recovery.layer == None::<CollisionLayer>,
        s.grace is Timed && dt >= remaining(s.grace) ==> step(s, position, points, cursor, dt).grace
            == GraceState::Inactive && step(s, position, points, cursor, dt).recovery.layer == Some(
            CollisionLayer::Default,
        ),
{
}

} // verus!
