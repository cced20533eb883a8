//! Texture atlases and the regions cut out of them.
use vstd::prelude::*;

verus! {

/// Side, in texels, of the square atlas that sprites use when none is given.
pub const DEFAULT_ATLAS_SIZE: u32 = 600;

/// A texture atlas, known by its size in texels.
#[derive(Clone, Copy, Debug, PartialEq, Eq, Structural)]
pub struct Texture {
    pub width: u32,
    pub height: u32,
}

/// A rectangle of an atlas: its corner and its size, in texels.
#[derive(Clone, Copy, Debug, PartialEq, Eq, Structural)]
pub struct UvRect {
    pub x: u32,
    pub y: u32,
    pub width: u32,
    pub height: u32,
}

/// A sprite region: a rectangle of an atlas.
#[derive(Clone, Copy, Debug, PartialEq, Eq, Structural)]
pub struct SubTexture {
    pub texture: Texture,
    pub region: UvRect,
}

/// The atlas that sprites use when none is given.
pub open spec fn default_texture() -> Texture {
    Texture { width: DEFAULT_ATLAS_SIZE, height: DEFAULT_ATLAS_SIZE }
}

impl UvRect {
    pub fn new(x: u32, y: u32, width: u32, height: u32) -> (r: UvRect)
        ensures
            r == (UvRect { x, y, width, height }),
    {
        UvRect { x, y, width, height }
    }
}

impl Texture {
    /// The default atlas, `DEFAULT_ATLAS_SIZE` texels square.
    pub fn new() -> (r: Texture)
        ensures
            r == default_texture(),
    {
        Texture { width: DEFAULT_ATLAS_SIZE, height: DEFAULT_ATLAS_SIZE }
    }
}

impl SubTexture {
    /// The region `uv` of `texture`.
    pub fn new_with_coords(texture: Texture, uv: UvRect) -> (r: SubTexture)
        ensures
            r == (SubTexture { texture, region: uv }),
    {
        SubTexture { texture, region: uv }
    }

    /// The whole of the default atlas.
    pub fn new() -> (r: SubTexture)
        ensures
            r == (SubTexture {
                texture: default_texture(),
                region: UvRect { x: 0, y: 0, width: DEFAULT_ATLAS_SIZE, height: DEFAULT_ATLAS_SIZE },
            }),
    {
        SubTexture::new_with_coords(
            Texture::new(),
            UvRect::new(0, 0, DEFAULT_ATLAS_SIZE, DEFAULT_ATLAS_SIZE),
        )
    }
}

} // verus!
