//! Placement of objects: `Transform` in space and `Transform2D` in the plane.
use crate::math::{
    lemma_trs_closed_form, trs_matrix, translation_matrix, Mat4, Vec2, Vec3,
};
use vstd::prelude::*;

verus! {

/// Position, rotation and scale of an object in space, with the matrix that
/// takes object coordinates to world coordinates.
///
/// Rotation is a whole number of counter-clockwise quarter turns about the z
/// axis. The matrix is recomputed by every setter, so it always equals
/// translation × rotation × scaling of the current fields.
#[derive(Clone, Copy, Debug)]
pub struct Transform {
    matrix: Mat4,
    position: Vec3,
    rotation: i64,
    scale: Vec3,
}

/// The fields of a `Transform`, without its matrix.
pub struct TransformState {
    pub position: Vec3,
    pub rotation: int,
    pub scale: Vec3,
}

impl View for Transform {
    type V = TransformState;

    closed spec fn view(&self) -> TransformState {
        TransformState { position: self.position, rotation: self.rotation as int, scale: self.scale }
    }
}

impl Transform {
    #[verifier::type_invariant]
    closed spec fn matrix_is_current(self) -> bool {
        self.matrix@ == trs_matrix(self.position, self.rotation as int, self.scale)
    }

    /// A transform with the given fields and the matrix that they make.
    fn recalculate_matrix(position: Vec3, rotation: i64, scale: Vec3) -> (r: Transform)
        ensures
            r@.position == position,
            r@.rotation == rotation,
            r@.scale == scale,
    {
        Transform { matrix: Mat4::new_trs(&position, rotation, &scale), position, rotation, scale }
    }

    /// The identity transform: at the origin, not turned, unit scale.
    pub fn new() -> (r: Transform)
        ensures
            r@.position == (Vec3 { x: 0, y: 0, z: 0 }),
            r@.rotation == 0,
            r@.scale == (Vec3 { x: 1, y: 1, z: 1 }),
    {
        Transform::recalculate_matrix(Vec3::zeros(), 0, Vec3::from_element(1))
    }

    /// A transform at `position`, not turned, unit scale.
    pub fn new_with_position(position: Vec3) -> (r: Transform)
        ensures
            r@.position == position,
            r@.rotation == 0,
            r@.scale == (Vec3 { x: 1, y: 1, z: 1 }),
    {
        let scale = Vec3::from_element(1);
        let matrix = Mat4::new_translation(&position);
        proof {
            lemma_trs_closed_form(position, 0, scale);
            assert(matrix@ =~~= trs_matrix(position, 0, scale));
        }
        Transform { matrix, position, rotation: 0, scale }
    }

    /// The matrix of the transform: translation × rotation × scaling.
    pub fn matrix(&self) -> (r: Mat4)
        ensures
            r@ == trs_matrix(self@.position, self@.rotation, self@.scale),
    {
        proof {
            use_type_invariant(self);
        }
        self.matrix
    }

    pub fn set_position(&mut self, position: Vec3)
        ensures
            final(self)@.position == position,
            final(self)@.rotation == old(self)@.rotation,
            final(self)@.scale == old(self)@.scale,
    {
        *self = Transform::recalculate_matrix(position, self.rotation, self.scale);
    }

    /// Sets the rotation to `rotation` counter-clockwise quarter turns about z.
    pub fn set_rotation(&mut self, rotation: i64)
        ensures
            final(self)@.position == old(self)@.position,
            final(self)@.rotation == rotation,
            final(self)@.scale == old(self)@.scale,
    {
        *self = Transform::recalculate_matrix(self.position, rotation, self.scale);
    }

    pub fn set_scale(&mut self, scale: Vec3)
        ensures
            final(self)@.position == old(self)@.position,
            final(self)@.rotation == old(self)@.rotation,
            final(self)@.scale == scale,
    {
        *self = Transform::recalculate_matrix(self.position, self.rotation, scale);
    }

    pub fn get_position(&self) -> (r: Vec3)
        ensures
            r == self@.position,
    {
        self.position
    }

    pub fn get_rotation(&self) -> (r: i64)
        ensures
            r == self@.rotation,
    {
        self.rotation
    }

    pub fn get_scale(&self) -> (r: Vec3)
        ensures
            r == self@.scale,
    {
        self.scale
    }
}

impl Default for Transform {
    fn default() -> (r: Transform)
        ensures
            r@.position == (Vec3 { x: 0, y: 0, z: 0 }),
            r@.rotation == 0,
            r@.scale == (Vec3 { x: 1, y: 1, z: 1 }),
    {
        Transform::new()
    }
}

/// Position, rotation and scale of an object in the plane.
///
/// Rotation is counted in quarter turns, as for `Transform`.
#[derive(Clone, Copy, Debug, PartialEq, Eq, Structural)]
pub struct Transform2D {
    pub position: Vec2,
    pub rotation: i64,
    pub scale: Vec2,
}

impl Default for Transform2D {
    fn default() -> (r: Transform2D)
        ensures
            r == (Transform2D {
                position: Vec2 { x: 0, y: 0 },
                rotation: 0,
                scale: Vec2 { x: 1, y: 1 },
            }),
    {
        Transform2D::new()
    }
}

/// Positions and rotations add up; the scale is the right operand's.
pub open spec fn combined(a: Transform2D, b: Transform2D) -> Transform2D {
    Transform2D {
        position: Vec2 {
            x: (a.position.x + b.position.x) as i64,
            y: (a.position.y + b.position.y) as i64,
        },
        rotation: (a.rotation + b.rotation) as i64,
        scale: b.scale,
    }
}

/// The sums that `combined(a, b)` takes fit in 64 bits.
pub open spec fn combinable(a: Transform2D, b: Transform2D) -> bool {
    &&& i64::MIN <= a.position.x + b.position.x <= i64::MAX
    &&& i64::MIN <= a.position.y + b.position.y <= i64::MAX
    &&& i64::MIN <= a.rotation + b.rotation <= i64::MAX
}

impl Transform2D {
    /// At the origin, not turned, unit scale.
    pub fn new() -> (r: Transform2D)
        ensures
            r == (Transform2D {
                position: Vec2 { x: 0, y: 0 },
                rotation: 0,
                scale: Vec2 { x: 1, y: 1 },
            }),
    {
        Transform2D { position: Vec2::zeros(), rotation: 0, scale: Vec2::new(1, 1) }
    }

    /// At (`pos_x`, `pos_y`), not turned, unit scale.
    pub fn new_with_position(pos_x: i64, pos_y: i64) -> (r: Transform2D)
        ensures
            r == (Transform2D {
                position: Vec2 { x: pos_x, y: pos_y },
                rotation: 0,
                scale: Vec2 { x: 1, y: 1 },
            }),
    {
        Transform2D { position: Vec2::new(pos_x, pos_y), ..Transform2D::new() }
    }

    /// At the origin, not turned, with scale (`scale_x`, `scale_y`).
    pub fn new_with_scale(scale_x: i64, scale_y: i64) -> (r: Transform2D)
        ensures
            r == (Transform2D {
                position: Vec2 { x: 0, y: 0 },
                rotation: 0,
                scale: Vec2 { x: scale_x, y: scale_y },
            }),
    {
        Transform2D { scale: Vec2::new(scale_x, scale_y), ..Transform2D::new() }
    }

    /// Moves the position by (`delta_x`, `delta_y`).
    pub fn translate(&mut self, delta_x: i64, delta_y: i64)
        requires
            i64::MIN <= old(self).position.x + delta_x <= i64::MAX,
            i64::MIN <= old(self).position.y + delta_y <= i64::MAX,
        ensures
            final(self).position.x == old(self).position.x + delta_x,
            final(self).position.y == old(self).position.y + delta_y,
            final(self).rotation == old(self).rotation,
            final(self).scale == old(self).scale,
    {
        self.position.x = self.position.x + delta_x;
        self.position.y = self.position.y + delta_y;
    }

    /// The matrix of the transform in space: only the position is carried
    /// over, at depth zero.
    pub fn matrix(&self) -> (r: Mat4)
        ensures
            r@ == translation_matrix(Vec3 { x: self.position.x, y: self.position.y, z: 0 }),
    {
        Mat4::new_translation(&Vec3::new(self.position.x, self.position.y, 0))
    }

    /// `self` followed by `rhs`: positions and rotations add up, and the
    /// scale is that of `rhs`, so the operation does not commute.
    pub fn combine(self, rhs: Transform2D) -> (r: Transform2D)
        requires
            combinable(self, rhs),
        ensures
            r == combined(self, rhs),
    {
        Transform2D {
            position: Vec2::new(self.position.x + rhs.position.x, self.position.y + rhs.position.y),
            rotation: self.rotation + rhs.rotation,
            ..rhs
        }
    }
}

/// Combining keeps the right operand's scale, so swapping the operands swaps
/// which scale survives.
pub proof fn combine_takes_right_scale(a: Transform2D, b: Transform2D)
    ensures
        combined(a, b).scale == b.scale,
        combined(b, a).scale == a.scale,
        a.scale != b.scale ==> combined(a, b) != combined(b, a),
{
}

} // verus!
