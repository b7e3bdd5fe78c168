use pih_pah::fixed::{ceil_sqrt_exec, div_toward_zero, UNIT};
use pih_pah::game_state::{level_transition, CoreGameState, KnownLevel, LevelCode, LevelError, MapState, MouseGrabState};
use pih_pah::geometry::{Quat, Vec3};
use pih_pah::respawn::{GraceState, NoclipDuration, DEFAULT_NOCLIP_MS};
use pih_pah::spawn::{is_loaded, SpawnError, SpawnProperty};
use pih_pah::world::{
    tied_camera_follow, FollowError, LinkId, PlayerId, ProjectileIdSeq, RigPose, TiedCamera,
    World, INITIAL_CAMERA_DISTANCE,
};

#[test]
fn take_on_empty_registry_fails() {
    let mut reg = SpawnProperty::empty();
    assert!(!is_loaded(&reg));
    let r = reg.take();
    assert_eq!(r, Err(SpawnError::NoSpawnPoint));
    assert_eq!(SpawnError::NoSpawnPoint.message(), "no spawn point available");
}

#[test]
fn take_is_round_robin() {
    let mut reg = SpawnProperty::empty();
    reg.push(Vec3::new(1, 0, 0));
    reg.process_spawn_point(&vec![Vec3::new(2, 0, 0), Vec3::new(3, 0, 0)]);
    assert!(is_loaded(&reg));
    assert_eq!(reg.len(), 3);
    assert_eq!(reg.take(), Ok(Vec3::new(1, 0, 0)));
    assert_eq!(reg.take(), Ok(Vec3::new(2, 0, 0)));
    assert_eq!(reg.take(), Ok(Vec3::new(3, 0, 0)));
    assert_eq!(reg.take(), Ok(Vec3::new(1, 0, 0)));
    assert_eq!(reg.len(), 3);
}

#[test]
fn spawn_character_needs_a_spawn_point() {
    let mut world = World::new();
    let mut reg = SpawnProperty::empty();
    assert_eq!(world.spawn_character(PlayerId(7), &mut reg), Err(SpawnError::NoSpawnPoint));
    assert!(world.actors.is_empty());
}

#[test]
fn spawn_character_places_actor() {
    let mut world = World::new();
    let mut reg = SpawnProperty::empty();
    reg.push(Vec3::new(10, 20, 30));
    let idx = world.spawn_character(PlayerId(7), &mut reg).unwrap();
    assert_eq!(idx, 0);
    let a = world.actors[0].as_ref().unwrap();
    assert_eq!(a.id, PlayerId(7));
    assert_eq!(a.position, Vec3::new(10, 20, 30));
    assert_eq!(a.velocity, Vec3::zero());
    assert_eq!(a.view.direction, Quat::identity());
    assert_eq!(a.view.distance, INITIAL_CAMERA_DISTANCE);
    assert_eq!(a.jump.last_viable_normal, Vec3::new(0, UNIT, 0));
    assert_eq!(a.respawn.noclip, NoclipDuration::Timer(DEFAULT_NOCLIP_MS));
    assert_eq!(a.respawn.grace, GraceState::Inactive);
    assert_eq!(a.respawn.reasons.len(), 6);
    assert_eq!(world.spawn_character(PlayerId(8), &mut reg), Ok(1));
}

#[test]
fn camera_follows_target() {
    let mut world = World::new();
    let mut reg = SpawnProperty::empty();
    reg.push(Vec3::new(10, 20, 30));
    let idx = world.spawn_character(PlayerId(1), &mut reg).unwrap();
    let rig = TiedCamera(idx);
    assert_eq!(
        tied_camera_follow(&rig, &world),
        Ok(RigPose {
            translation: Vec3::new(10, 2020, 30),
            rotation: Quat::identity(),
            camera_offset: Vec3::new(0, 0, INITIAL_CAMERA_DISTANCE),
        })
    );
}

#[test]
fn camera_reports_missing_target() {
    let mut world = World::new();
    let mut reg = SpawnProperty::empty();
    reg.push(Vec3::new(10, 20, 30));
    let idx = world.spawn_character(PlayerId(1), &mut reg).unwrap();
    assert!(world.remove_character(idx));
    assert!(!world.remove_character(idx));
    assert_eq!(tied_camera_follow(&TiedCamera(idx), &world), Err(FollowError::MissingTarget(idx)));
    assert_eq!(tied_camera_follow(&TiedCamera(5), &world), Err(FollowError::MissingTarget(5)));
}

#[test]
fn projectile_ids_are_fresh() {
    let mut seq = ProjectileIdSeq::default();
    assert_eq!(seq, ProjectileIdSeq(0));
    assert_eq!(seq.shift(), LinkId::Projectile(1));
    assert_eq!(seq.shift(), LinkId::Projectile(2));
    assert_eq!(seq, ProjectileIdSeq(2));
}

#[test]
fn mouse_grab_toggles() {
    let mut s = MouseGrabState::Disable;
    assert_eq!(s.toggle(), MouseGrabState::Enable);
    assert_eq!(s, MouseGrabState::Enable);
    assert_eq!(s.toggle(), MouseGrabState::Disable);
}

#[test]
fn level_requests() {
    let path = LevelCode::Path("Level1".to_string());
    assert_eq!(level_transition(&path, true), Ok(CoreGameState::LoadCustomLevel));
    assert_eq!(level_transition(&path, false), Err(LevelError::NotFound));
    assert_eq!(level_transition(&LevelCode::Url("x".to_string()), true), Err(LevelError::Unsupported));
    assert_eq!(level_transition(&LevelCode::Known(KnownLevel::Hub), false), Ok(CoreGameState::Hub));
    assert_eq!(CoreGameState::initial(), CoreGameState::PrimaryLoad);
}

#[test]
fn map_state_names() {
    assert_eq!(MapState::Menu.name(), "Menu");
    assert_eq!(MapState::Arena.name(), "Arena");
}

#[test]
fn fixed_point_helpers() {
    assert_eq!(div_toward_zero(-7, 2), -3);
    assert_eq!(div_toward_zero(7, 2), 3);
    assert_eq!(ceil_sqrt_exec(0), 0);
    assert_eq!(ceil_sqrt_exec(16), 4);
    assert_eq!(ceil_sqrt_exec(17), 5);
    assert_eq!(ceil_sqrt_exec(39_240_000), 6265);
}
