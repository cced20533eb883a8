//! The camera: where the scene is looked at from, and how it is projected.
use crate::math::{translation_matrix, Mat4, Vec3};
use vstd::prelude::*;

verus! {

/// Parameters of a perspective projection. Distances are in fixed-point
/// steps (see `WORLD_UNIT`).
#[derive(Clone, Copy, Debug, PartialEq, Eq, Structural)]
pub struct Perspective {
    /// Vertical field of view, in degrees.
    pub fovy_degrees: u32,
    /// Width of the view, in proportion to `aspect_height`.
    pub aspect_width: u32,
    pub aspect_height: u32,
    pub near: i64,
    pub far: i64,
}

/// The projection of every camera.
pub open spec fn camera_perspective() -> Perspective {
    Perspective { fovy_degrees: 45, aspect_width: 16, aspect_height: 9, near: 10, far: 10000 }
}

/// A camera. Its view matrix moves the scene by the camera's offset; the
/// offset is the sum of every translation applied to the camera.
pub struct Camera {
    offset: Vec3,
    view: Mat4,
}

/// The sums that translating `offset` by `delta` takes fit in 64 bits.
pub open spec fn can_translate(offset: Vec3, delta: Vec3) -> bool {
    &&& i64::MIN <= offset.x + delta.x <= i64::MAX
    &&& i64::MIN <= offset.y + delta.y <= i64::MAX
    &&& i64::MIN <= offset.z + delta.z <= i64::MAX
}

impl Camera {
    /// The offset by which the view moves the scene.
    pub closed spec fn offset(&self) -> Vec3 {
        self.offset
    }

    #[verifier::type_invariant]
    closed spec fn view_is_current(self) -> bool {
        self.view@ == translation_matrix(self.offset)
    }

    /// A camera with no offset.
    pub fn new() -> (r: Camera)
        ensures
            r.offset() == (Vec3 { x: 0, y: 0, z: 0 }),
    {
        Camera::with_position(&Vec3::zeros())
    }

    /// A camera whose view moves the scene by `position`.
    pub fn with_position(position: &Vec3) -> (r: Camera)
        ensures
            r.offset() == *position,
    {
        Camera { offset: *position, view: Mat4::new_translation(position) }
    }

    /// Adds `delta` to the offset and recomputes the view.
    pub fn translate(&mut self, delta: &Vec3)
        requires
            can_translate(old(self).offset(), *delta),
        ensures
            final(self).offset() == (Vec3 {
                x: (old(self).offset().x + delta.x) as i64,
                y: (old(self).offset().y + delta.y) as i64,
                z: (old(self).offset().z + delta.z) as i64,
            }),
    {
        let offset = Vec3::new(
            self.offset.x + delta.x,
            self.offset.y + delta.y,
            self.offset.z + delta.z,
        );
        *self = Camera::with_position(&offset);
    }

    pub fn get_offset(&self) -> (r: Vec3)
        ensures
            r == self.offset(),
    {
        self.offset
    }

    /// The view matrix: the translation by the camera's offset.
    pub fn view(&self) -> (r: Mat4)
        ensures
            r@ == translation_matrix(self.offset()),
    {
        proof {
            use_type_invariant(self);
        }
        self.view
    }

    /// The fixed perspective projection.
    pub fn projection(&self) -> (r: Perspective)
        ensures
            r == camera_perspective(),
    {
        Perspective { fovy_degrees: 45, aspect_width: 16, aspect_height: 9, near: 10, far: 10000 }
    }
}

} // verus!
