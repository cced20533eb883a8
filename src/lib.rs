//! Input, transforms, camera and player logic for a small scene runtime.
//!
//! Lengths are fixed-point integers (see `math::WORLD_UNIT`), rotations are
//! whole quarter turns, and sprite regions are measured in texels.
pub mod camera;
pub mod game;
pub mod input;
pub mod math;
pub mod renderer;
pub mod texture;
pub mod transform;

pub use camera::Camera;
pub use input::InputManager;
pub use math::{Mat4, Vec2, Vec3};
pub use transform::Transform;
