use pih_pah::controls::{InputType, Inputs, PlayerInputs};
use pih_pah::fixed::UNIT;
use pih_pah::geometry::{Quat, Vec3};
use pih_pah::jump::{jump, update_jump_normals, JumpHelper};
use pih_pah::movement::{move_characters, movement_delta_exec, PLAYER_MOVE_SPEED};
use pih_pah::view::PlayerView;

fn pressed(kind: InputType) -> Inputs {
    let mut i = Inputs::none();
    i.set(kind, true);
    i
}

fn straight_view() -> PlayerView {
    PlayerView::new(Quat::identity(), 20000)
}

#[test]
fn right_moves_along_x() {
    let d = movement_delta_exec(&Quat::identity(), &pressed(InputType::Right));
    assert_eq!(d, Vec3::new(PLAYER_MOVE_SPEED, 0, 0));
}

#[test]
fn up_moves_against_z() {
    let d = movement_delta_exec(&Quat::identity(), &pressed(InputType::Up));
    assert_eq!(d, Vec3::new(0, 0, -70));
}

#[test]
fn opposite_keys_cancel() {
    let mut i = pressed(InputType::Left);
    i.set(InputType::Right, true);
    assert_eq!(movement_delta_exec(&Quat::identity(), &i), Vec3::zero());
}

#[test]
fn movement_follows_yaw() {
    // a quarter turn about the vertical axis
    let q = Quat { w: 46341, x: 0, y: 46341, z: 0 };
    let d = movement_delta_exec(&q, &pressed(InputType::Right));
    assert_eq!(d, Vec3::new(0, 0, -70));
}

#[test]
fn sprint_doubles_the_change() {
    let q = Quat { w: 60000, x: 1000, y: 26000, z: -3000 };
    let mut walk = pressed(InputType::Right);
    walk.set(InputType::Up, true);
    let mut run = walk;
    run.set(InputType::Sprint, true);
    let a = movement_delta_exec(&q, &walk);
    let b = movement_delta_exec(&q, &run);
    assert_ne!(a, Vec3::zero());
    assert_eq!(b, Vec3::new(2 * a.x, 0, 2 * a.z));
}

#[test]
fn two_ticks_add_twice_one_tick() {
    let view = straight_view();
    let input = pressed(InputType::Right);
    let mut v = Vec3::new(5, -9810, 7);
    move_characters(&mut v, &view, &input);
    assert_eq!(v, Vec3::new(75, -9810, 7));
    move_characters(&mut v, &view, &input);
    assert_eq!(v, Vec3::new(145, -9810, 7));
}

#[test]
fn fresh_press_is_consumed_once() {
    let mut inputs = PlayerInputs::new();
    inputs.update(pressed(InputType::Jump));
    assert!(inputs.is_input_changed_to_true_and_set_to_false(InputType::Jump));
    assert!(!inputs.is_input_changed_to_true_and_set_to_false(InputType::Jump));
    // still held: no new press
    inputs.update(pressed(InputType::Jump));
    assert!(!inputs.is_input_changed_to_true_and_set_to_false(InputType::Jump));
    inputs.update(Inputs::none());
    inputs.update(pressed(InputType::Jump));
    assert!(inputs.is_input_changed_to_true_and_set_to_false(InputType::Jump));
    assert!(inputs.get().jump);
}

#[test]
fn jump_launches_along_normal() {
    let mut inputs = PlayerInputs::new();
    inputs.update(pressed(InputType::Jump));
    let mut v = Vec3::zero();
    let helper = JumpHelper::new();
    assert!(jump(&mut v, &straight_view(), &mut inputs, &helper, true, -9810));
    // ceil(sqrt(2 * 9810 * 2000)) = 6265, times 1.1
    assert_eq!(v, Vec3::new(0, 6891, 0));
    assert!(!jump(&mut v, &straight_view(), &mut inputs, &helper, true, -9810));
    assert_eq!(v, Vec3::new(0, 6891, 0));
}

#[test]
fn jump_needs_contact() {
    let mut inputs = PlayerInputs::new();
    inputs.update(pressed(InputType::Jump));
    let mut v = Vec3::new(1, 2, 3);
    assert!(!jump(&mut v, &straight_view(), &mut inputs, &JumpHelper::new(), false, -9810));
    assert_eq!(v, Vec3::new(1, 2, 3));
    // the press was still consumed
    assert!(!inputs.is_input_changed_to_true_and_set_to_false(InputType::Jump));
}

#[test]
fn jump_blends_horizontal_input() {
    let mut held = pressed(InputType::Jump);
    held.set(InputType::Right, true);
    let mut inputs = PlayerInputs::new();
    inputs.update(held);
    let mut v = Vec3::zero();
    assert!(jump(&mut v, &straight_view(), &mut inputs, &JumpHelper::new(), true, -9810));
    // (1, 1, 0) scaled to 6891: 6891 / sqrt(2) rounded toward zero
    assert_eq!(v, Vec3::new(4872, 4872, 0));
}

#[test]
fn contact_normal_points_away_from_contacts() {
    let mut helper = JumpHelper::new();
    update_jump_normals(&mut helper, &Vec3::new(0, 1000, 0), &vec![Vec3::new(0, 0, 0)]);
    assert_eq!(helper.last_viable_normal, Vec3::new(0, UNIT, 0));
    update_jump_normals(
        &mut helper,
        &Vec3::new(0, 1000, 0),
        &vec![Vec3::new(0, 0, 0), Vec3::new(1000, 1000, 0)],
    );
    assert_eq!(helper.last_viable_normal, Vec3::new(-46315, 46315, 0));
}

#[test]
fn no_contacts_give_zero_normal() {
    let mut helper = JumpHelper::new();
    update_jump_normals(&mut helper, &Vec3::new(3, 4, 5), &vec![]);
    assert_eq!(helper.last_viable_normal, Vec3::zero());
}
