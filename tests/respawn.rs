use pih_pah::geometry::Vec3;
use pih_pah::respawn::{
    violates_any, AxisName, CollisionLayer, DespawnReason, GraceState, NoclipDuration, Recovery,
    Respawn,
};
use pih_pah::spawn::{SpawnPoint, SpawnProperty};

fn registry(points: &[Vec3]) -> SpawnProperty {
    let mut r = SpawnProperty::empty();
    r.process_spawn_point(&points.to_vec());
    r
}

fn actor_state(noclip: NoclipDuration) -> Respawn {
    Respawn::new(Respawn::default_reasons(), SpawnPoint::new(Vec3::zero()), noclip)
}

#[test]
fn bounds_are_a_disjunction_with_strict_limits() {
    let rules = Respawn::default_reasons();
    assert!(violates_any(&rules, &Vec3::new(0, 250000, 0)));
    assert!(!violates_any(&rules, &Vec3::new(50000, 50000, 50000)));
    assert!(!violates_any(&rules, &Vec3::new(0, 200000, 0)));
    assert!(violates_any(&rules, &Vec3::new(0, 200001, 0)));
    assert!(violates_any(&rules, &Vec3::new(0, -10001, 0)));
    assert!(violates_any(&rules, &Vec3::new(-100001, 0, 0)));
    assert!(violates_any(&rules, &Vec3::new(0, 0, 100001)));
}

#[test]
fn empty_rules_never_violate() {
    assert!(!violates_any(&vec![], &Vec3::new(i64::MAX, i64::MIN, 0)));
}

#[test]
fn single_rule() {
    let r = DespawnReason::Less(-5, AxisName::Z);
    assert!(r.is_violated_by(&Vec3::new(0, 0, -6)));
    assert!(!r.is_violated_by(&Vec3::new(0, 0, -5)));
}

#[test]
fn violation_teleports_and_arms_grace() {
    let first = Vec3::new(1, 2, 3);
    let second = Vec3::new(4, 5, 6);
    let mut reg = registry(&[first, second]);
    let mut s = actor_state(NoclipDuration::Timer(10000));
    let r = s.respawn_tick(Vec3::new(0, -20000, 0), &mut reg, 16);
    assert_eq!(
        r,
        Recovery { teleport: Some(first), layer: Some(CollisionLayer::ActorNoclip), missing_spawn: false }
    );
    assert_eq!(s.grace, GraceState::Timed(10000));
    assert_eq!(s.spawn_point, SpawnPoint::new(first));
}

#[test]
fn second_violation_in_grace_changes_nothing() {
    let first = Vec3::new(1, 2, 3);
    let mut reg = registry(&[first, Vec3::new(4, 5, 6)]);
    let mut s = actor_state(NoclipDuration::Timer(10000));
    s.respawn_tick(Vec3::new(0, -20000, 0), &mut reg, 16);
    let r = s.respawn_tick(Vec3::new(0, -20000, 0), &mut reg, 16);
    assert_eq!(r, Recovery { teleport: None, layer: None, missing_spawn: false });
    assert_eq!(s.grace, GraceState::Timed(9984));
    assert_eq!(s.spawn_point, SpawnPoint::new(first));
    // the registry was not consumed: the next coordinate is still the second
    assert_eq!(reg.take(), Ok(Vec3::new(4, 5, 6)));
}

#[test]
fn grace_expiry_restores_collisions() {
    let mut reg = registry(&[Vec3::new(1, 2, 3)]);
    let mut s = actor_state(NoclipDuration::Timer(100));
    s.respawn_tick(Vec3::new(0, 300000, 0), &mut reg, 1);
    let r = s.respawn_tick(Vec3::new(1, 2, 3), &mut reg, 60);
    assert_eq!(r, Recovery { teleport: None, layer: None, missing_spawn: false });
    let r = s.respawn_tick(Vec3::new(1, 2, 3), &mut reg, 60);
    assert_eq!(r, Recovery { teleport: None, layer: Some(CollisionLayer::Default), missing_spawn: false });
    assert_eq!(s.grace, GraceState::Inactive);
}

#[test]
fn expiry_while_out_of_bounds_returns_to_active_first() {
    let p = Vec3::new(7, 8, 9);
    let mut reg = registry(&[p]);
    let mut s = actor_state(NoclipDuration::Timer(100));
    s.respawn_tick(Vec3::new(0, 300000, 0), &mut reg, 1);
    // the window runs out in this tick: no teleport, collisions restored
    let r = s.respawn_tick(Vec3::new(0, 300000, 0), &mut reg, 100);
    assert_eq!(r, Recovery { teleport: None, layer: Some(CollisionLayer::Default), missing_spawn: false });
    assert_eq!(s.grace, GraceState::Inactive);
    // the bounds apply again from the next tick
    let r = s.respawn_tick(Vec3::new(0, 300000, 0), &mut reg, 16);
    assert_eq!(
        r,
        Recovery { teleport: Some(p), layer: Some(CollisionLayer::ActorNoclip), missing_spawn: false }
    );
    assert_eq!(s.grace, GraceState::Timed(100));
}

#[test]
fn short_window_ends_without_rearming() {
    let mut reg = registry(&[Vec3::new(1, 2, 3)]);
    let mut s = actor_state(NoclipDuration::Timer(10000));
    s.grace = GraceState::Timed(5);
    let r = s.respawn_tick(Vec3::new(0, 300000, 0), &mut reg, 10);
    assert_eq!(r.teleport, None);
    assert_eq!(r.layer, Some(CollisionLayer::Default));
    assert_eq!(s.grace, GraceState::Inactive);
}

#[test]
fn empty_registry_reports_missing_spawn() {
    let mut reg = SpawnProperty::empty();
    let mut s = actor_state(NoclipDuration::Timer(10000));
    let r = s.respawn_tick(Vec3::new(0, 300000, 0), &mut reg, 16);
    assert_eq!(r, Recovery { teleport: None, layer: None, missing_spawn: true });
    assert_eq!(s.grace, GraceState::Inactive);
    assert_eq!(s.spawn_point, SpawnPoint::new(Vec3::zero()));
}

#[test]
fn in_bounds_does_nothing() {
    let mut reg = registry(&[Vec3::new(1, 2, 3)]);
    let mut s = actor_state(NoclipDuration::Timer(10000));
    let r = s.respawn_tick(Vec3::new(0, 0, 0), &mut reg, 16);
    assert_eq!(r, Recovery { teleport: None, layer: None, missing_spawn: false });
    assert!(!s.in_grace());
}

#[test]
fn without_grace_respawns_every_violation() {
    let p = Vec3::new(1, 2, 3);
    let mut reg = registry(&[p]);
    let mut s = actor_state(NoclipDuration::Off);
    let r = s.respawn_tick(Vec3::new(0, 300000, 0), &mut reg, 16);
    assert_eq!(r, Recovery { teleport: Some(p), layer: None, missing_spawn: false });
    let r = s.respawn_tick(Vec3::new(0, 300000, 0), &mut reg, 16);
    assert_eq!(r.teleport, Some(p));
}

#[test]
fn gated_grace_lasts_until_ended() {
    let mut reg = registry(&[Vec3::new(1, 2, 3)]);
    let mut s = actor_state(NoclipDuration::Gated);
    s.respawn_tick(Vec3::new(0, 300000, 0), &mut reg, 16);
    assert_eq!(s.grace, GraceState::Gated);
    let r = s.respawn_tick(Vec3::new(0, 300000, 0), &mut reg, 1_000_000);
    assert_eq!(r.teleport, None);
    assert!(s.end_grace());
    assert!(!s.end_grace());
    assert_eq!(s.respawn_tick(Vec3::new(0, 300000, 0), &mut reg, 1).teleport, Some(Vec3::new(1, 2, 3)));
}
