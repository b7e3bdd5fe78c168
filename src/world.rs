//! Actors in an indexable arena, the camera rig that follows one of them,
//! and identifiers of linked scene objects.
use vstd::prelude::*;

use crate::controls::{flag, InputType, PlayerInputs};
use crate::fixed::UNIT;
use crate::geometry::{Quat, Vec3};
use crate::jump::JumpHelper;
use crate::respawn::{GraceState, NoclipDuration, Respawn, DEFAULT_NOCLIP_MS};
use crate::spawn::{SpawnError, SpawnPoint, SpawnProperty};
use crate::view::PlayerView;

verus! {

/// Height of the viewpoint above an actor's origin, in millimetres.
pub const EYE_HEIGHT: i64 = 2000;

/// Camera distance of a newly created actor, in millimetres (the square
/// root of 325 square metres, rounded).
pub const INITIAL_CAMERA_DISTANCE: i64 = 18028;

/// A network-unique player identifier.
#[derive(Clone, Copy, Debug, PartialEq, Eq, Structural)]
pub struct PlayerId(pub u64);

/// A simulated body controlled by one player.
#[derive(Debug)]
pub struct Actor {
    pub id: PlayerId,
    pub position: Vec3,
    pub velocity: Vec3,
    pub view: PlayerView,
    pub inputs: PlayerInputs,
    pub jump: JumpHelper,
    pub respawn: Respawn,
}

/// All actors; an actor's index is its handle, and a removed actor leaves
/// an empty slot so that stale handles are detected.
#[derive(Debug)]
pub struct World {
    pub actors: Vec<Option<Actor>>,
}

/// A viewpoint that follows the actor at the given index.
#[derive(Clone, Copy, Debug, PartialEq, Eq, Structural)]
pub struct TiedCamera(pub usize);

/// Where a camera rig stands this frame.
#[derive(Clone, Copy, Debug, PartialEq, Eq, Structural)]
pub struct RigPose {
    /// The rig's position: the target's position raised to eye height.
    pub translation: Vec3,
    /// The rig's rotation: the target's view direction.
    pub rotation: Quat,
    /// The camera's offset from the rig, along the rig's forward axis.
    pub camera_offset: Vec3,
}

#[derive(Clone, Copy, Debug, PartialEq, Eq, Structural)]
pub enum FollowError {
    /// No actor stands at the rig's target index.
    MissingTarget(usize),
}

/// The actor at `idx`, if the slot exists and is filled.
pub open spec fn actor_at(w: &World, idx: usize) -> Option<&Actor> {
    if idx < w.actors@.len() {
        match w.actors@[idx as int] {
            Some(a) => Some(&a),
            None => None,
        }
    } else {
        None
    }
}

/// The pose of a rig that follows actor `a`.
pub open spec fn rig_pose(a: &Actor) -> RigPose {
    RigPose {
        translation: Vec3 { x: a.position.x, y: (a.position.y + EYE_HEIGHT) as i64, z: a.position.z },
        rotation: a.view.direction,
        camera_offset: Vec3 { x: 0, y: 0, z: a.view.distance },
    }
}

/// The pose of a camera rig this frame, recomputed from its target alone;
/// a target that is gone is reported, and the rig keeps its last pose.
pub fn tied_camera_follow(rig: &TiedCamera, world: &World) -> (r: Result<RigPose, FollowError>)
    requires
        actor_at(world, rig.0) matches Some(a) ==> a.position.y <= i64::MAX - EYE_HEIGHT,
    ensures
        match actor_at(world, rig.0) {
            Some(a) => r == Ok::<RigPose, FollowError>(rig_pose(a)),
            None => r == Err::<RigPose, FollowError>(FollowError::MissingTarget(rig.0)),
        },
{
    let idx = rig.0;
    if idx >= world.actors.len() {
        return Err(FollowError::MissingTarget(idx));
    }
    match &world.actors[idx] {
        None => Err(FollowError::MissingTarget(idx)),
        Some(a) => Ok(
            RigPose {
                translation: Vec3 { x: a.position.x, y: a.position.y + EYE_HEIGHT, z: a.position.z },
                rotation: a.view.direction,
                camera_offset: Vec3 { x: 0, y: 0, z: a.view.distance },
            },
        ),
    }
}

impl World {
    pub fn new() -> (r: World)
        ensures
            r.actors@.len() == 0,
    {
        World { actors: Vec::new() }
    }

    /// Creates an actor for `player_id` at the registry's next coordinate,
    /// looking along the default direction, with the default bounds box and
    /// grace window. Fails, creating nothing, when the registry is empty.
    pub fn spawn_character(&mut self, player_id: PlayerId, registry: &mut SpawnProperty) -> (r:
        Result<usize, SpawnError>)
        requires
            old(registry).wf(),
        ensures
            final(registry).wf(),
            old(registry).cursor_in_range(),
            final(registry).cursor_in_range(),
            final(registry).points() == old(registry).points(),
            old(registry).points().len() == 0 ==> r == Err::<usize, SpawnError>(
                SpawnError::NoSpawnPoint,
            ) && final(self).actors@ == old(self).actors@ && final(registry).cursor() == old(
                registry,
            ).cursor(),
            old(registry).points().len() > 0 ==> {
                &&& r == Ok::<usize, SpawnError>(old(self).actors@.len() as usize)
                &&& final(self).actors@.len() == old(self).actors@.len() + 1
                &&& forall|i: int|
                    0 <= i < old(self).actors@.len() ==> final(self).actors@[i] == old(
                        self,
                    ).actors@[i]
                &&& final(registry).cursor() == (old(registry).cursor() + 1) % old(
                    registry,
                ).points().len()
                &&& final(self).actors@.last() matches Some(a) && {
                    let p = old(registry).points()[old(registry).cursor() as int];
                    &&& old(registry).points().contains(a.position)
                    &&& a.id == player_id
                    &&& a.position == p
                    &&& a.velocity == (Vec3 { x: 0, y: 0, z: 0 })
                    &&& forall|k: InputType| !flag(a.inputs.current, k) && !flag(a.inputs.rising, k)
                    &&& a.view.direction@ == crate::geometry::identity()
                    &&& a.view.distance == INITIAL_CAMERA_DISTANCE
                    &&& a.jump.last_viable_normal == (Vec3 { x: 0, y: UNIT, z: 0 })
                    &&& a.respawn.spawn_point == SpawnPoint { position: p }
                    &&& a.respawn.noclip == NoclipDuration::Timer(DEFAULT_NOCLIP_MS)
                    &&& a.respawn.grace == GraceState::Inactive
                    &&& a.respawn.reasons@ == Respawn::default_reasons_spec()
                }
            },
    {
        let p = match registry.take() {
            Err(e) => return Err(e),
            Ok(p) => p,
        };
        let actor = Actor {
            id: player_id,
            position: p,
            velocity: Vec3::zero(),
            view: PlayerView::new(Quat::identity(), INITIAL_CAMERA_DISTANCE),
            inputs: PlayerInputs::new(),
            jump: JumpHelper::new(),
            respawn: Respawn::new(
                Respawn::default_reasons(),
                SpawnPoint::new(p),
                NoclipDuration::Timer(DEFAULT_NOCLIP_MS),
            ),
        };
        let idx = self.actors.len();
        self.actors.push(Some(actor));
        Ok(idx)
    }

    /// Removes the actor at `idx`, leaving its slot empty; answers whether
    /// an actor was there.
    pub fn remove_character(&mut self, idx: usize) -> (r: bool)
        ensures
            r == (actor_at(old(self), idx) is Some),
            final(self).actors@.len() == old(self).actors@.len(),
            forall|i: int|
                0 <= i < old(self).actors@.len() && i != idx ==> final(self).actors@[i] == old(
                    self,
                ).actors@[i],
            idx < old(self).actors@.len() ==> final(self).actors@[idx as int] is None,
    {
        if idx >= self.actors.len() {
            return false;
        }
        let was = self.actors[idx].is_some();
        self.actors.set(idx, None);
        was
    }
}

/// Identifies an object linked across the network.
#[derive(Clone, Debug, PartialEq, Eq)]
pub enum LinkId {
    Scene(String),
    Projectile(usize),
}

/// The source of projectile identifiers.
#[derive(Clone, Copy, Debug, PartialEq, Eq, Structural)]
pub struct ProjectileIdSeq(pub usize);

impl Default for ProjectileIdSeq {
    fn default() -> (r: ProjectileIdSeq)
        ensures
            r.0 == 0,
    {
        ProjectileIdSeq(0)
    }
}

impl ProjectileIdSeq {
    /// Returns the next projectile identifier; each call gives a new one.
    pub fn shift(&mut self) -> (r: LinkId)
        requires
            old(self).0 < usize::MAX,
        ensures
            final(self).0 == old(self).0 + 1,
            r == LinkId::Projectile(final(self).0),
    {
        self.0 = self.0 + 1;
        LinkId::Projectile(self.0)
    }
}

} // verus!
