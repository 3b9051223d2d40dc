//! Handle to a texture owned by the render backend. The compositor core
//! only stores and compares these handles; allocation, upload and deletion
//! happen in the backend that issued the identifier.

use vstd::prelude::*;
use crate::ScreenSize;

verus! {

/// A backend-issued texture handle with its pixel dimensions.
#[derive(Copy, Clone, Debug, PartialEq, Eq, Structural)]
pub struct Texture {
    pub id: u32,
    pub width: ScreenSize,
    pub height: ScreenSize,
}

impl Texture {
    pub fn new(id: u32, width: ScreenSize, height: ScreenSize) -> (t: Texture)
        ensures
            t.id == id,
            t.width == width,
            t.height == height,
    {
        Texture { id, width, height }
    }
}

} // verus!
