use moon::camera::Perspective;
use moon::{Camera, Vec3};

#[test]
fn new_camera_view_is_identity() {
    let c = Camera::new();
    assert_eq!(c.view().rows, [[1, 0, 0, 0], [0, 1, 0, 0], [0, 0, 1, 0], [0, 0, 0, 1]]);
}

#[test]
fn camera_translations_accumulate() {
    let mut c = Camera::with_position(&Vec3::new(0, -50, -200));
    assert_eq!(c.view().rows, [[1, 0, 0, 0], [0, 1, 0, -50], [0, 0, 1, -200], [0, 0, 0, 1]]);
    c.translate(&Vec3::new(0, 0, 5));
    c.translate(&Vec3::new(-5, 0, 5));
    assert_eq!(c.view().rows, [[1, 0, 0, -5], [0, 1, 0, -50], [0, 0, 1, -190], [0, 0, 0, 1]]);
}

#[test]
fn projection_is_fixed() {
    let mut c = Camera::new();
    let p = c.projection();
    assert_eq!(
        p,
        Perspective { fovy_degrees: 45, aspect_width: 16, aspect_height: 9, near: 10, far: 10000 }
    );
    c.translate(&Vec3::new(1, 2, 3));
    assert_eq!(c.projection(), p);
}
