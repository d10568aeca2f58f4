//! The shared 2D texture, seen as its GPU handle and its pixel size.
//!
//! Decoding the image and uploading its pixels are the host's work; what the
//! scene's logic reads is the handle under which the host registered the
//! uploaded texture and the decoded width and height, captured once at
//! upload time and fixed for the object's life.  The dimensions drive the
//! collision half-extents, so they must match the rendered footprint.

use vstd::prelude::*;

verus! {

/// An uploaded 2D texture: its handle and its immutable pixel dimensions
/// (in coordinate units).
#[derive(Clone, Copy, Debug, PartialEq, Eq, Structural)]
pub struct Texture {
    pub texture: u64,
    pub width: i64,
    pub height: i64,
}

impl Texture {
    /// Dimensions never go negative; they come from a decoded image.
    pub open spec fn wf(&self) -> bool {
        0 <= self.width && 0 <= self.height
    }

    /// Half the texture's width, the collision margin from the side walls.
    pub open spec fn half_width(&self) -> int {
        self.width as int / 2
    }

    /// Half the texture's height, the collision margin from the floor and
    /// ceiling.
    pub open spec fn half_height(&self) -> int {
        self.height as int / 2
    }

    /// Takes the texture the host uploaded, by its handle and the source
    /// image's decoded pixel size.
    pub fn new(texture: u64, width: i64, height: i64) -> (result: Texture)
        requires
            0 <= width,
            0 <= height,
        ensures
            result == (Texture { texture, width, height }),
            result.wf(),
    {
        Texture { texture, width, height }
    }

    /// The handle under which the host registered the uploaded texture.
    pub fn texture(&self) -> (handle: u64)
        ensures
            handle == self.texture,
    {
        self.texture
    }

    /// The size captured at upload time, fixed for the object's life.
    pub fn dimensions(&self) -> (size: (i64, i64))
        ensures
            size.0 == self.width,
            size.1 == self.height,
    {
        (self.width, self.height)
    }
}

} // verus!
