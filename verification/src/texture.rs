//! Image-backed texture lookup.

use vstd::prelude::*;

verus! {

use crate::image::Image;

/// A texture that reads its colors from a decoded image.
#[derive(Debug, Clone, PartialEq)]
pub struct ImageTexture {
    pub image: Image,
}

impl ImageTexture {
    pub open spec fn wf(&self) -> bool {
        self.image.wf()
    }

    pub fn new(image: Image) -> (r: Self)
        ensures
            r.image == image,
    {
        ImageTexture { image }
    }

    /// The texel at pixel coordinates `(i, j)`, clamped onto the image. An
    /// image with no pixels yields the cyan marker color instead of a fault,
    /// so a failed decode shows up in the output rather than stopping it.
    pub fn texel(&self, i: usize, j: usize) -> (r: (u8, u8, u8))
        requires
            self.wf(),
        ensures
            self.image.width == 0 || self.image.height == 0 ==> r == (0u8, 255u8, 255u8),
            self.image.width > 0 && self.image.height > 0 ==> r == self.image.pixel_spec(
                Image::clamped(i as int, self.image.width as int),
                Image::clamped(j as int, self.image.height as int),
            ),
    {
        if self.image.width == 0 || self.image.height == 0 {
            (0u8, 255u8, 255u8)
        } else {
            self.image.pixel_data(i, j)
        }
    }
}

/// Parity that drives a checkerboard pattern: whether the integer lattice
/// cell `(x, y, z)` is an even cell, the one that shows the first of the two
/// sub-textures.
pub fn checker_is_even(x: i32, y: i32, z: i32) -> (r: bool)
    ensures
        r == ((x + y + z) % 2 == 0),
{
    let s: i64 = x as i64 + y as i64 + z as i64;
    s % 2 == 0
}

} // verus!
