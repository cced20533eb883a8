use std::rc::Rc;

use moon::game::{Player, PlayerState, SpriteTable, Tile, MOVE_STEP};
use moon::input::Key;
use moon::math::WORLD_UNIT;
use moon::texture::{SubTexture, Texture, UvRect, DEFAULT_ATLAS_SIZE};
use moon::{InputManager, Vec2};

fn idle_region() -> UvRect {
    UvRect::new(6, 60, 100, 200)
}

fn idle_left_region() -> UvRect {
    UvRect::new(60, 6, 100, 200)
}

#[test]
fn new_player_is_idle_at_origin() {
    let p = Player::new();
    assert_eq!(p.state(), PlayerState::Idle);
    assert_eq!(p.position(), Vec2::new(0, 0));
    assert_eq!(p.get_sprite().region, idle_region());
    assert_eq!(Player::default().state(), PlayerState::Idle);
}

#[test]
fn state_follows_flags_in_all_four_cases() {
    assert_eq!(PlayerState::from_flags(false, false), PlayerState::Idle);
    assert_eq!(PlayerState::from_flags(true, false), PlayerState::Jumping);
    assert_eq!(PlayerState::from_flags(false, true), PlayerState::IdleLeft);
    assert_eq!(PlayerState::from_flags(true, true), PlayerState::JumpingLeft);
    let mut p = Player::new();
    p.set_motion_flags(true, false);
    assert_eq!(p.state(), PlayerState::Jumping);
    p.set_motion_flags(false, true);
    assert_eq!(p.state(), PlayerState::IdleLeft);
    p.set_motion_flags(true, true);
    assert_eq!(p.state(), PlayerState::JumpingLeft);
    p.set_motion_flags(false, false);
    assert_eq!(p.state(), PlayerState::Idle);
}

#[test]
fn sprite_falls_back_to_idle() {
    let mut p = Player::new();
    p.set_motion_flags(false, true);
    assert_eq!(p.get_sprite().region, idle_left_region());
    p.set_motion_flags(true, false);
    assert_eq!(p.get_sprite().region, idle_region());
    p.set_motion_flags(true, true);
    assert_eq!(p.get_sprite().region, idle_region());
}

#[test]
fn table_with_only_idle_always_answers() {
    let idle = SubTexture::new_with_coords(Texture::new(), UvRect::new(1, 2, 3, 4));
    let mut table = SpriteTable::new(idle);
    assert_eq!(*table.get(PlayerState::JumpingLeft), idle);
    assert_eq!(*table.get(PlayerState::Idle), idle);
    let jump = SubTexture::new_with_coords(Texture::new(), UvRect::new(9, 9, 9, 9));
    table.insert(PlayerState::Jumping, jump);
    assert_eq!(*table.get(PlayerState::Jumping), jump);
    assert_eq!(*table.get(PlayerState::IdleLeft), idle);
}

#[test]
fn pressing_right_moves_right() {
    let mut input = InputManager::new();
    let mut p = Player::new();
    input.key_down(Key::D);
    p.handle_input(&input);
    assert_eq!(p.position(), Vec2::new(MOVE_STEP, 0));
    assert_eq!(MOVE_STEP, 1);
    p.handle_input(&input);
    assert_eq!(p.position(), Vec2::new(2, 0));
}

#[test]
fn pressing_left_and_right_cancels() {
    let mut input = InputManager::new();
    let mut p = Player::new();
    input.set_key_state("d", true);
    input.set_key_state("a", true);
    p.handle_input(&input);
    assert_eq!(p.position(), Vec2::new(0, 0));
    input.key_up(Key::D);
    p.handle_input(&input);
    assert_eq!(p.position(), Vec2::new(-1, 0));
}

#[test]
fn handle_input_recomputes_state() {
    let input = InputManager::new();
    let mut p = Player::new();
    p.set_motion_flags(true, true);
    p.handle_input(&input);
    assert_eq!(p.state(), PlayerState::JumpingLeft);
    assert_eq!(p.position(), Vec2::new(0, 0));
}

#[test]
fn update_integrates_velocity() {
    let mut p = Player::new();
    p.update(16);
    assert_eq!(p.position(), Vec2::new(0, 0));
    p.set_velocity(Vec2::new(3, -2));
    p.update(16);
    assert_eq!(p.position(), Vec2::new(48, -32));
    p.update(1);
    assert_eq!(p.position(), Vec2::new(51, -34));
}

#[test]
fn quad_is_one_unit_at_position() {
    let mut input = InputManager::new();
    let mut p = Player::new();
    input.key_down(Key::D);
    p.handle_input(&input);
    let q = p.quad();
    assert_eq!(q.position, Vec2::new(1, 0));
    assert_eq!(q.size, Vec2::new(WORLD_UNIT, WORLD_UNIT));
    assert_eq!(q.sprite.region, idle_region());
    assert_eq!(q.sprite.texture, Texture::new());
}

#[test]
fn tiles_from_coords_and_shared_regions() {
    let t = Tile::new_with_coords("grass", UvRect::new(0, 0, 32, 32));
    assert_eq!(t.name, "grass");
    assert_eq!(t.image.region, UvRect::new(0, 0, 32, 32));
    assert_eq!(t.image.texture.width, DEFAULT_ATLAS_SIZE);
    assert!(t.collider.is_none());

    let shared = Rc::new(SubTexture::new_with_coords(Texture::new(), UvRect::new(32, 0, 32, 32)));
    let a = Tile::new_from_subtexture("rock", Rc::clone(&shared));
    let b = Tile::new_from_subtexture("rock2", Rc::clone(&shared));
    assert!(Rc::ptr_eq(&a.image, &b.image));
    assert_eq!(Rc::strong_count(&shared), 3);

    let d = Tile::default();
    assert_eq!(d.name, "Unknown Tile");
    assert_eq!(d.image.region, UvRect::new(0, 0, DEFAULT_ATLAS_SIZE, DEFAULT_ATLAS_SIZE));
}
