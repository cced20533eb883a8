//! What is handed to the renderer.
use crate::math::Vec2;
use crate::texture::SubTexture;
use vstd::prelude::*;

verus! {

/// An axis-aligned rectangle to draw, with the sprite region that fills it.
#[derive(Clone, Copy, Debug, PartialEq, Eq, Structural)]
pub struct Quad {
    /// Lower left corner, in fixed-point steps.
    pub position: Vec2,
    /// Width and height, in fixed-point steps.
    pub size: Vec2,
    pub sprite: SubTexture,
}

impl Quad {
    pub fn new_from_position_and_size_and_sprite(
        x: i64,
        y: i64,
        width: i64,
        height: i64,
        sprite: &SubTexture,
    ) -> (r: Quad)
        ensures
            r == (Quad {
                position: Vec2 { x, y },
                size: Vec2 { x: width, y: height },
                sprite: *sprite,
            }),
    {
        Quad { position: Vec2::new(x, y), size: Vec2::new(width, height), sprite: *sprite }
    }
}

} // verus!
