use moon::transform::Transform2D;
use moon::{Mat4, Transform, Vec2, Vec3};

const IDENTITY: [[i128; 4]; 4] = [[1, 0, 0, 0], [0, 1, 0, 0], [0, 0, 1, 0], [0, 0, 0, 1]];

fn rows(m: Mat4) -> [[i128; 4]; 4] {
    m.rows
}

#[test]
fn new_transform_is_identity() {
    let t = Transform::new();
    assert_eq!(rows(t.matrix()), IDENTITY);
    assert_eq!(t.get_position(), Vec3::zeros());
    assert_eq!(t.get_rotation(), 0);
    assert_eq!(t.get_scale(), Vec3::from_element(1));
    assert_eq!(rows(Transform::default().matrix()), IDENTITY);
}

#[test]
fn new_with_position_is_a_translation() {
    let t = Transform::new_with_position(Vec3::new(3, -4, 5));
    assert_eq!(rows(t.matrix()), [[1, 0, 0, 3], [0, 1, 0, -4], [0, 0, 1, 5], [0, 0, 0, 1]]);
}

#[test]
fn setters_recompute_translate_rotate_scale() {
    let mut t = Transform::new();
    t.set_position(Vec3::new(10, 20, 30));
    t.set_scale(Vec3::new(2, 3, 4));
    assert_eq!(rows(t.matrix()), [[2, 0, 0, 10], [0, 3, 0, 20], [0, 0, 4, 30], [0, 0, 0, 1]]);
    t.set_rotation(1);
    assert_eq!(rows(t.matrix()), [[0, -3, 0, 10], [2, 0, 0, 20], [0, 0, 4, 30], [0, 0, 0, 1]]);
    t.set_rotation(2);
    assert_eq!(rows(t.matrix()), [[-2, 0, 0, 10], [0, -3, 0, 20], [0, 0, 4, 30], [0, 0, 0, 1]]);
    t.set_position(Vec3::new(-1, 0, 7));
    assert_eq!(rows(t.matrix()), [[-2, 0, 0, -1], [0, -3, 0, 0], [0, 0, 4, 7], [0, 0, 0, 1]]);
    assert_eq!(t.get_rotation(), 2);
    assert_eq!(t.get_scale(), Vec3::new(2, 3, 4));
}

#[test]
fn rotation_counts_whole_turns_modulo_four() {
    let mut a = Transform::new();
    let mut b = Transform::new();
    a.set_rotation(-1);
    b.set_rotation(3);
    assert_eq!(rows(a.matrix()), rows(b.matrix()));
    assert_eq!(rows(a.matrix()), [[0, 1, 0, 0], [-1, 0, 0, 0], [0, 0, 1, 0], [0, 0, 0, 1]]);
    a.set_rotation(4);
    assert_eq!(rows(a.matrix()), IDENTITY);
}

#[test]
fn extreme_scale_does_not_overflow() {
    let mut t = Transform::new();
    t.set_scale(Vec3::new(i64::MIN, i64::MAX, 1));
    t.set_rotation(1);
    let m = rows(t.matrix());
    assert_eq!(m[0][1], -(i64::MAX as i128));
    assert_eq!(m[1][0], i64::MIN as i128);
}

#[test]
fn transform2d_defaults() {
    let t = Transform2D::new();
    assert_eq!(t.position, Vec2::new(0, 0));
    assert_eq!(t.rotation, 0);
    assert_eq!(t.scale, Vec2::new(1, 1));
    assert_eq!(Transform2D::default(), t);
    assert_eq!(Transform2D::new_with_position(4, 5).position, Vec2::new(4, 5));
    assert_eq!(Transform2D::new_with_scale(2, 3).scale, Vec2::new(2, 3));
}

#[test]
fn combine_takes_right_scale_and_does_not_commute() {
    let a = Transform2D { position: Vec2::new(1, 2), rotation: 1, scale: Vec2::new(2, 2) };
    let b = Transform2D { position: Vec2::new(10, 20), rotation: 2, scale: Vec2::new(5, 7) };
    let ab = a.combine(b);
    let ba = b.combine(a);
    assert_eq!(ab.position, Vec2::new(11, 22));
    assert_eq!(ab.rotation, 3);
    assert_eq!(ab.scale, b.scale);
    assert_eq!(ba.scale, a.scale);
    assert_ne!(ab, ba);
}

#[test]
fn translate_moves_position_only() {
    let mut t = Transform2D::new_with_scale(3, 3);
    t.translate(5, -2);
    t.translate(1, 1);
    assert_eq!(t.position, Vec2::new(6, -1));
    assert_eq!(t.scale, Vec2::new(3, 3));
}

#[test]
fn transform2d_matrix_carries_position_only() {
    let t = Transform2D { position: Vec2::new(8, -3), rotation: 1, scale: Vec2::new(4, 4) };
    assert_eq!(rows(t.matrix()), [[1, 0, 0, 8], [0, 1, 0, -3], [0, 0, 1, 0], [0, 0, 0, 1]]);
}
